use clipboard_manager::commands::{paste_action, require_accessibility, resolve_paste, PasteAction};
use clipboard_manager::db::ClipEntry;

fn entry(kind: &str, content: Option<&str>, image_path: Option<&str>) -> ClipEntry {
    ClipEntry {
        id: 7,
        kind: kind.to_string(),
        content: content.map(|s| s.to_string()),
        image_path: image_path.map(|s| s.to_string()),
        source_app: Some("Editor".to_string()),
        hash: "h".to_string(),
        pinned: false,
        created_at: 1,
    }
}

fn text_of(a: PasteAction) -> Option<String> {
    match a {
        PasteAction::Text(t) => Some(t),
        _ => None,
    }
}

#[test]
fn plain_paste_of_html_strips_tags() {
    let a = paste_action(entry("html", Some("<b>bold</b> text"), None), true);
    assert_eq!(text_of(a), Some("bold text".to_string()));
}

#[test]
fn plain_paste_of_text_keeps_content() {
    let a = paste_action(entry("text", Some("a <b> c"), None), true);
    assert_eq!(text_of(a), Some("a <b> c".to_string()));
}

#[test]
fn plain_paste_of_image_is_empty_text() {
    let a = paste_action(entry("image", None, Some("/tmp/x.png")), true);
    assert_eq!(text_of(a), Some(String::new()));
}

#[test]
fn rich_paste_of_html_is_html() {
    match paste_action(entry("html", Some("<i>x</i>"), None), false) {
        PasteAction::Html(h) => assert_eq!(h, "<i>x</i>"),
        other => panic!("unexpected {:?}", other),
    }
}

#[test]
fn rich_paste_of_text_is_text() {
    assert_eq!(text_of(paste_action(entry("text", Some("hi"), None), false)), Some("hi".to_string()));
    assert_eq!(text_of(paste_action(entry("text", None, None), false)), Some(String::new()));
}

#[test]
fn rich_paste_of_image_uses_its_file() {
    match paste_action(entry("image", None, Some("/img/1.png")), false) {
        PasteAction::Image(p) => assert_eq!(p, "/img/1.png"),
        other => panic!("unexpected {:?}", other),
    }
    assert!(matches!(paste_action(entry("image", None, None), false), PasteAction::SimulateOnly));
}

#[test]
fn rich_paste_of_unknown_kind_only_simulates() {
    assert!(matches!(paste_action(entry("file", Some("x"), None), false), PasteAction::SimulateOnly));
}

#[test]
fn paste_requires_accessibility() {
    assert_eq!(require_accessibility(true), Ok(()));
    assert_eq!(
        require_accessibility(false),
        Err("Accessibility permission required. Grant it in System Settings and restart the app.".to_string())
    );
}

#[test]
fn resolve_paste_reports_lookup_failures() {
    assert!(matches!(resolve_paste(Err("db locked".to_string()), false), Err(m) if m == "db locked"));
    assert!(matches!(resolve_paste(Ok(None), true), Err(m) if m == "Entry not found"));
    let r = resolve_paste(Ok(Some(entry("html", Some("<p>a</p>"), None))), true);
    assert_eq!(r.map(text_of).unwrap(), Some("a".to_string()));
}
