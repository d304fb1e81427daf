//! The character and string operations of `std` that the library relies on,
//! with what their documentation states of them, and the spec functions that
//! state it.
use vstd::prelude::*;

verus! {

/// `String::push`: appends `ch` to the end of `s`.
pub assume_specification[ String::push ](s: &mut String, ch: char)
    ensures
        final(s)@ == old(s)@.push(ch),
;

/// `str == str`: two string slices are equal when they hold the same
/// characters.
pub assume_specification[ <str as PartialEq>::eq ](a: &str, b: &str) -> (r: bool)
    ensures
        r == (a@ == b@),
;

/// Whether `a` and `b` hold the same characters.
pub fn same_text(a: &str, b: &str) -> (r: bool)
    ensures
        r == (a@ == b@),
{
    a.eq(b)
}

/// The `White_Space` characters of Unicode, which `char::is_whitespace`
/// accepts and `str::trim` removes.
pub open spec fn is_white_space(c: char) -> bool {
    let n = c as u32;
    ||| 0x9 <= n <= 0xd
    ||| n == 0x20
    ||| n == 0x85
    ||| n == 0xa0
    ||| n == 0x1680
    ||| 0x2000 <= n <= 0x200a
    ||| n == 0x2028
    ||| n == 0x2029
    ||| n == 0x202f
    ||| n == 0x205f
    ||| n == 0x3000
}

/// `char::is_whitespace`: whether `c` has the Unicode `White_Space` property.
pub assume_specification[ char::is_whitespace ](c: char) -> (b: bool)
    ensures
        b == is_white_space(c),
;

/// Whether `c` is alphabetic or numeric in the sense of Unicode (the tables
/// behind `char::is_alphabetic` and `char::is_numeric`).
pub uninterp spec fn alphanumeric(c: char) -> bool;

/// `char::is_alphanumeric`: whether `c` is alphabetic or numeric; its answer
/// is named `alphanumeric(c)`, a function of `c` alone.
pub assume_specification[ char::is_alphanumeric ](c: char) -> (b: bool)
    ensures
        b == alphanumeric(c),
;

/// `s` without its leading `White_Space` characters.
pub open spec fn trim_start_seq(s: Seq<char>) -> Seq<char>
    decreases s.len(),
{
    if s.len() > 0 && is_white_space(s[0]) {
        trim_start_seq(s.drop_first())
    } else {
        s
    }
}

/// `s` without its trailing `White_Space` characters.
pub open spec fn trim_end_seq(s: Seq<char>) -> Seq<char>
    decreases s.len(),
{
    if s.len() > 0 && is_white_space(s.last()) {
        trim_end_seq(s.drop_last())
    } else {
        s
    }
}

/// `s` without its leading and trailing `White_Space` characters.
pub open spec fn trim_seq(s: Seq<char>) -> Seq<char> {
    trim_end_seq(trim_start_seq(s))
}

/// Trimming keeps only characters of the text: whatever holds of every
/// character of `s` holds of every character of `trim_seq(s)`.
pub proof fn lemma_trim_keeps_property(s: Seq<char>, p: spec_fn(char) -> bool)
    requires
        forall|i: int| 0 <= i < s.len() ==> p(#[trigger] s[i]),
    ensures
        forall|i: int| 0 <= i < trim_seq(s).len() ==> p(#[trigger] trim_seq(s)[i]),
{
    lemma_trim_start_keeps_property(s, p);
    lemma_trim_end_keeps_property(trim_start_seq(s), p);
}

proof fn lemma_trim_start_keeps_property(s: Seq<char>, p: spec_fn(char) -> bool)
    requires
        forall|i: int| 0 <= i < s.len() ==> p(#[trigger] s[i]),
    ensures
        forall|i: int| 0 <= i < trim_start_seq(s).len() ==> p(#[trigger] trim_start_seq(s)[i]),
    decreases s.len(),
{
    if s.len() > 0 && is_white_space(s[0]) {
        assert forall|i: int| 0 <= i < s.drop_first().len() implies p(#[trigger] s.drop_first()[i]) by {
            assert(s.drop_first()[i] == s[i + 1]);
        }
        lemma_trim_start_keeps_property(s.drop_first(), p);
        assert(trim_start_seq(s) == trim_start_seq(s.drop_first()));
    } else {
        assert(trim_start_seq(s) == s);
    }
}

proof fn lemma_trim_end_keeps_property(s: Seq<char>, p: spec_fn(char) -> bool)
    requires
        forall|i: int| 0 <= i < s.len() ==> p(#[trigger] s[i]),
    ensures
        forall|i: int| 0 <= i < trim_end_seq(s).len() ==> p(#[trigger] trim_end_seq(s)[i]),
    decreases s.len(),
{
    if s.len() > 0 && is_white_space(s.last()) {
        assert forall|i: int| 0 <= i < s.drop_last().len() implies p(#[trigger] s.drop_last()[i]) by {
            assert(s.drop_last()[i] == s[i]);
        }
        lemma_trim_end_keeps_property(s.drop_last(), p);
        assert(trim_end_seq(s) == trim_end_seq(s.drop_last()));
    } else {
        assert(trim_end_seq(s) == s);
    }
}

/// `str::trim`: `s` without its leading and trailing `White_Space` characters.
pub assume_specification<'a>[ str::trim ](s: &'a str) -> (t: &'a str)
    ensures
        t@ == trim_seq(s@),
;

/// `c` with an ASCII capital letter mapped to its small letter; any other
/// character is left as it is.
pub open spec fn ascii_lower(c: char) -> char {
    if 'A' <= c <= 'Z' {
        ((c as u32) + 32) as char
    } else {
        c
    }
}

/// Every character of `s` mapped by `ascii_lower`.
pub open spec fn ascii_lower_seq(s: Seq<char>) -> Seq<char> {
    s.map_values(|c: char| ascii_lower(c))
}

/// `str::eq_ignore_ascii_case`: whether `a` and `b` are equal once ASCII
/// capital letters are mapped to small letters in both (as
/// `to_ascii_lowercase(a) == to_ascii_lowercase(b)`).
pub assume_specification[ str::eq_ignore_ascii_case ](a: &str, b: &str) -> (r: bool)
    ensures
        r == (ascii_lower_seq(a@) == ascii_lower_seq(b@)),
;

} // verus!
