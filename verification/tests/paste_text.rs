use clipboard_manager::commands::html2text;
use clipboard_manager::paste::{is_accessibility_trusted, request_accessibility, strip_tags};

#[test]
fn strip_tags_removes_markup() {
    assert_eq!(strip_tags("<b>Hello</b> <i>world</i>"), "Hello world");
}

#[test]
fn strip_tags_keeps_plain_text() {
    assert_eq!(strip_tags("plain text, no markup"), "plain text, no markup");
    assert_eq!(strip_tags(""), "");
}

#[test]
fn strip_tags_unclosed_tag_drops_the_rest() {
    assert_eq!(strip_tags("a<b c"), "a");
}

#[test]
fn strip_tags_drops_stray_closing_bracket() {
    assert_eq!(strip_tags("a>b"), "ab");
    assert_eq!(strip_tags("1 < 2 > 0"), "1  0");
}

#[test]
fn strip_tags_is_idempotent_on_example() {
    let once = strip_tags("<p>x <a href=\"y\">link</a></p>");
    assert_eq!(once, "x link");
    assert_eq!(strip_tags(&once), once);
}

#[test]
fn strip_tags_keeps_non_ascii() {
    assert_eq!(strip_tags("<em>caf\u{e9}</em> \u{1f600}"), "caf\u{e9} \u{1f600}");
}

#[test]
fn html2text_matches_strip_tags() {
    let html = "<div><span>One</span>, <b>two</b></div>";
    assert_eq!(html2text(html), "One, two");
    assert_eq!(html2text(html), strip_tags(html));
}

#[test]
fn accessibility_is_granted_off_macos() {
    assert!(is_accessibility_trusted());
    request_accessibility();
}
