//! Pasteboard helpers: the plain-text rendering of an HTML clip and the
//! accessibility gate. The pasteboard writes and the simulated keystroke
//! themselves are system I/O and live outside this library.
use vstd::prelude::*;

verus! {

/// Whether a scan of `s` from its start ends inside a tag: after the last
/// `<` that is not followed by a `>`.
pub open spec fn in_tag_after(s: Seq<char>) -> bool
    decreases s.len(),
{
    if s.len() == 0 {
        false
    } else if s.last() == '<' {
        true
    } else if s.last() == '>' {
        false
    } else {
        in_tag_after(s.drop_last())
    }
}

/// `s` with every tag removed: a character is kept when it is neither `<`
/// nor `>` and the scan is not inside a tag when it reaches it.
pub open spec fn stripped(s: Seq<char>) -> Seq<char>
    decreases s.len(),
{
    if s.len() == 0 {
        Seq::empty()
    } else {
        let prev = stripped(s.drop_last());
        let c = s.last();
        if c != '<' && c != '>' && !in_tag_after(s.drop_last()) {
            prev.push(c)
        } else {
            prev
        }
    }
}

/// No `<` and no `>` in `s`.
pub open spec fn tag_free(s: Seq<char>) -> bool {
    forall|i: int| 0 <= i < s.len() ==> s[i] != '<' && s[i] != '>'
}

/// Removes the tags of `html`, for the plain-text fallback that is put on the
/// pasteboard beside the HTML.
pub fn strip_tags(html: &str) -> (out: String)
    ensures
        out@ == stripped(html@),
{
    let mut out = String::new();
    let mut in_tag = false;
    for c in it: html.chars()
        invariant
            it.seq() == html@,
            out@ == stripped(it.seq().take(it.index())),
            in_tag == in_tag_after(it.seq().take(it.index())),
    {
        assert(it.seq().take(it.index() + 1).drop_last() == it.seq().take(it.index()));
        if c == '<' {
            in_tag = true;
        } else if c == '>' {
            in_tag = false;
        } else if !in_tag {
            out.push(c);
        }
    }
    assert(html@.take(html@.len() as int) == html@);
    out
}

/// Stripping never leaves a `<` or a `>` behind.
pub proof fn lemma_stripped_is_tag_free(s: Seq<char>)
    ensures
        tag_free(stripped(s)),
    decreases s.len(),
{
    if s.len() > 0 {
        lemma_stripped_is_tag_free(s.drop_last());
    }
}

/// Text with no `<` and no `>` is left as it is, and its scan never ends
/// inside a tag.
pub proof fn lemma_stripped_keeps_tag_free(s: Seq<char>)
    requires
        tag_free(s),
    ensures
        stripped(s) == s,
        !in_tag_after(s),
    decreases s.len(),
{
    if s.len() > 0 {
        assert(tag_free(s.drop_last()));
        lemma_stripped_keeps_tag_free(s.drop_last());
        assert(s.drop_last().push(s.last()) == s);
    }
}

/// Stripping twice gives what stripping once gives.
pub proof fn lemma_stripped_idempotent(s: Seq<char>)
    ensures
        stripped(stripped(s)) == stripped(s),
{
    lemma_stripped_is_tag_free(s);
    lemma_stripped_keeps_tag_free(stripped(s));
}

/// Stripping never lengthens the text.
pub proof fn lemma_stripped_not_longer(s: Seq<char>)
    ensures
        stripped(s).len() <= s.len(),
    decreases s.len(),
{
    if s.len() > 0 {
        lemma_stripped_not_longer(s.drop_last());
    }
}

/// Whether this process may post keystrokes to other applications. Outside
/// macOS no permission is needed, so the answer is always yes.
pub fn is_accessibility_trusted() -> (trusted: bool)
    ensures
        trusted,
{
    true
}

/// Asks the user to grant the accessibility permission. Outside macOS there is
/// nothing to ask for, so this does nothing.
pub fn request_accessibility() {
}

} // verus!
