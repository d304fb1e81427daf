use clipboard_manager::capture::{is_excluded_app, should_capture};
use clipboard_manager::tray::{close_hides_window, menu_action, TrayMenuAction};

#[test]
fn exclusion_ignores_ascii_case() {
    let apps = vec!["1Password".to_string(), "KeePassXC".to_string()];
    assert!(is_excluded_app("1password", &apps));
    assert!(is_excluded_app("KEEPASSXC", &apps));
    assert!(!is_excluded_app("Safari", &apps));
    assert!(!is_excluded_app("1Password 7", &apps));
}

#[test]
fn exclusion_is_ascii_only() {
    let apps = vec!["\u{c9}diteur".to_string()];
    assert!(is_excluded_app("\u{c9}DITEUR", &apps));
    assert!(!is_excluded_app("\u{e9}diteur", &apps));
}

#[test]
fn capture_decision() {
    let apps = vec!["Bitwarden".to_string()];
    assert!(!should_capture(true, &Some("Notes".to_string()), &apps));
    assert!(!should_capture(false, &Some("bitwarden".to_string()), &apps));
    assert!(should_capture(false, &Some("Notes".to_string()), &apps));
    assert!(should_capture(false, &None, &apps));
    assert!(should_capture(false, &Some("Notes".to_string()), &Vec::new()));
}

#[test]
fn tray_menu_items() {
    assert_eq!(menu_action("show"), TrayMenuAction::ShowPopup);
    assert_eq!(menu_action("settings"), TrayMenuAction::ShowSettings);
    assert_eq!(menu_action("quit"), TrayMenuAction::Quit);
    assert_eq!(menu_action("Show"), TrayMenuAction::Ignore);
    assert_eq!(menu_action(""), TrayMenuAction::Ignore);
}

#[test]
fn only_settings_window_hides_on_close() {
    assert!(close_hides_window("settings"));
    assert!(!close_hides_window("popup"));
}
