use clipboard_manager::settings::{loaded_or_default, shortcut_updates, Settings};

#[test]
fn default_settings_match_the_documented_defaults() {
    let s = Settings::default();
    assert_eq!(s.paste_shortcut, "Control+Alt+V");
    assert_eq!(s.paste_plain_shortcut, "Control+Alt+B");
    assert!(!s.autostart);
    assert_eq!(s.max_items, 500);
    assert!(s.capture_images);
    assert!(s.exclude_apps.is_empty());
}

#[test]
fn loaded_settings_are_kept() {
    let mut custom = Settings::default();
    custom.max_items = 20;
    custom.exclude_apps = vec!["1Password".to_string()];
    let s = loaded_or_default(Some(custom));
    assert_eq!(s.max_items, 20);
    assert_eq!(s.exclude_apps, vec!["1Password".to_string()]);
}

#[test]
fn unreadable_settings_fall_back_to_defaults() {
    let s = loaded_or_default(None);
    assert_eq!(s.max_items, 500);
    assert_eq!(s.paste_shortcut, "Control+Alt+V");
}

#[test]
fn unchanged_shortcuts_move_nothing() {
    let s = Settings::default();
    let plan = shortcut_updates("Control+Alt+V", "Control+Alt+B", &s);
    assert!(plan.unregister.is_empty());
    assert!(plan.register.is_empty());
}

#[test]
fn changed_paste_shortcut_moves_only_it() {
    let mut s = Settings::default();
    s.paste_shortcut = "Control+Shift+V".to_string();
    let plan = shortcut_updates("Control+Alt+V", "Control+Alt+B", &s);
    assert_eq!(plan.unregister, vec!["Control+Alt+V".to_string()]);
    assert_eq!(plan.register, vec!["Control+Shift+V".to_string()]);
}

#[test]
fn both_changed_shortcuts_release_before_claiming() {
    let s = Settings::default();
    let plan = shortcut_updates("Alt+V", "Alt+B", &s);
    assert_eq!(plan.unregister, vec!["Alt+V".to_string(), "Alt+B".to_string()]);
    assert_eq!(plan.register, vec!["Control+Alt+V".to_string(), "Control+Alt+B".to_string()]);
}

#[test]
fn swapped_shortcuts_stay_registered() {
    let mut s = Settings::default();
    s.paste_shortcut = "Control+Alt+B".to_string();
    s.paste_plain_shortcut = "Control+Alt+V".to_string();
    let plan = shortcut_updates("Control+Alt+V", "Control+Alt+B", &s);
    // apply the plan to the registered set: releases first, then claims
    let mut registered = vec!["Control+Alt+V".to_string(), "Control+Alt+B".to_string()];
    for old in &plan.unregister {
        registered.retain(|r| r != old);
    }
    for new in &plan.register {
        if !registered.contains(new) {
            registered.push(new.clone());
        }
    }
    registered.sort();
    assert_eq!(registered, vec!["Control+Alt+B".to_string(), "Control+Alt+V".to_string()]);
}
