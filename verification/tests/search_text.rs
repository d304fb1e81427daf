use clipboard_manager::db::{fts_query, like_pattern};

#[test]
fn fts_query_drops_operators() {
    assert_eq!(fts_query("hello \"world\"("), "hello world*");
    assert_eq!(fts_query("foo:bar*"), "foobar*");
    assert_eq!(fts_query("  spaced  out  "), "spaced  out*");
}

#[test]
fn fts_query_keeps_hyphen_and_unicode_letters() {
    assert_eq!(fts_query("e-mail"), "e-mail*");
    assert_eq!(fts_query("caf\u{e9} \u{65e5}\u{672c}"), "caf\u{e9} \u{65e5}\u{672c}*");
}

#[test]
fn fts_query_of_symbols_only_is_bare_star() {
    assert_eq!(fts_query("\"()*"), "*");
    assert_eq!(fts_query(""), "*");
}

#[test]
fn like_pattern_trims_and_wraps() {
    assert_eq!(like_pattern("  a_b%  "), "%a_b%%");
    assert_eq!(like_pattern("\u{3000}x\t"), "%x%");
}
