//! The menu-bar icon: what each of its menu items does. Building the menu
//! and showing the windows happens in the application.
use vstd::prelude::*;

use crate::strings::same_text;

verus! {

/// What a click on a menu item of the tray icon does.
#[derive(Debug, Clone, Copy, PartialEq, Eq)]
pub enum TrayMenuAction {
    /// Open the clipboard history popup.
    ShowPopup,
    /// Open the settings window.
    ShowSettings,
    /// Quit the application.
    Quit,
    /// Nothing.
    Ignore,
}

/// The action of the menu item with id `id`: `show`, `settings` or `quit`;
/// any other id does nothing.
pub fn menu_action(id: &str) -> (a: TrayMenuAction)
    ensures
        id@ == "show"@ ==> a == TrayMenuAction::ShowPopup,
        id@ == "settings"@ ==> a == TrayMenuAction::ShowSettings,
        id@ == "quit"@ ==> a == TrayMenuAction::Quit,
        id@ != "show"@ && id@ != "settings"@ && id@ != "quit"@ ==> a == TrayMenuAction::Ignore,
{
    proof {
        reveal_strlit("show");
        reveal_strlit("settings");
        reveal_strlit("quit");
        assert("show"@.len() != "settings"@.len());
        assert("quit"@.len() != "settings"@.len());
        assert("show"@[0] != "quit"@[0]);
    }
    if same_text(id, "show") {
        TrayMenuAction::ShowPopup
    } else if same_text(id, "settings") {
        TrayMenuAction::ShowSettings
    } else if same_text(id, "quit") {
        TrayMenuAction::Quit
    } else {
        TrayMenuAction::Ignore
    }
}

/// Whether closing the window labelled `label` hides it instead: the
/// settings window is created once and reused, so it is never destroyed.
pub fn close_hides_window(label: &str) -> (r: bool)
    ensures
        r == (label@ == "settings"@),
{
    same_text(label, "settings")
}

} // verus!
