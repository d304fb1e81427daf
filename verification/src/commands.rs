//! What the popup and settings windows ask of the backend: browsing and
//! searching the history, deleting clips, and deciding what a paste puts on
//! the pasteboard. The window plumbing and the paste sequence run in the
//! application around this library.
use vstd::prelude::*;

use rusqlite::Connection;

use crate::db::{self, is_sqlite_error_text, ClipEntry};
use crate::paste::stripped;
use crate::strings::{same_text, trim_seq};

verus! {

/// How many clips a listing or search returns when the caller names no limit.
pub const DEFAULT_LIMIT: i64 = 100;

/// The listing window a listing request asks for: `limit` (100 when `None`)
/// and `offset` (0 when `None`).
pub fn listing_window(limit: Option<i64>, offset: Option<i64>) -> (w: (i64, i64))
    ensures
        w == (limit.unwrap_or(DEFAULT_LIMIT), offset.unwrap_or(0)),
{
    (limit.unwrap_or(DEFAULT_LIMIT), offset.unwrap_or(0))
}

/// Up to `limit` clips (100 when `None`), newest first, after skipping the
/// `offset` newest (none when `None`); a failure comes back as its message.
pub fn list_clips(conn: &Connection, limit: Option<i64>, offset: Option<i64>) -> (r: Result<Vec<ClipEntry>, String>)
    ensures
        r matches Err(m) ==> is_sqlite_error_text(m),
        r matches Ok(rows) ==> (limit.unwrap_or(DEFAULT_LIMIT) >= 0 ==> rows.len() <= limit.unwrap_or(DEFAULT_LIMIT)),
{
    let (limit, offset) = listing_window(limit, offset);
    match db::list(conn, limit, offset) {
        Ok(rows) => Ok(rows),
        Err(e) => Err(e.message),
    }
}

/// What a search request does.
#[derive(Debug, Clone, Copy, PartialEq, Eq)]
pub enum SearchPlan {
    /// List the newest clips.
    List { limit: i64, offset: i64 },
    /// Search for the query.
    Search { limit: i64 },
}

/// The plan for a search request: a query that is empty or only whitespace
/// lists the newest `limit` clips (offset 0); any other query searches, for
/// up to `limit` clips. `limit` is 100 when `None`.
pub fn search_plan(query: &str, limit: Option<i64>) -> (p: SearchPlan)
    ensures
        trim_seq(query@).len() == 0 ==> p == (SearchPlan::List { limit: limit.unwrap_or(DEFAULT_LIMIT), offset: 0 }),
        trim_seq(query@).len() != 0 ==> p == (SearchPlan::Search { limit: limit.unwrap_or(DEFAULT_LIMIT) }),
{
    let limit = limit.unwrap_or(DEFAULT_LIMIT);
    if query.trim().is_empty() {
        SearchPlan::List { limit, offset: 0 }
    } else {
        SearchPlan::Search { limit }
    }
}

/// The clips that match `query`, up to `limit` (100 when `None`); a query
/// that is empty or only whitespace lists the newest clips instead. A failure
/// comes back as its message.
pub fn search_clips(conn: &Connection, query: &str, limit: Option<i64>) -> (r: Result<Vec<ClipEntry>, String>)
    ensures
        r matches Err(m) ==> is_sqlite_error_text(m),
        r matches Ok(rows) ==> (limit.unwrap_or(DEFAULT_LIMIT) >= 0 ==> rows.len() <= limit.unwrap_or(DEFAULT_LIMIT)),
{
    let rows = match search_plan(query, limit) {
        SearchPlan::List { limit, offset } => db::list(conn, limit, offset),
        SearchPlan::Search { limit } => db::search(conn, query, limit),
    };
    match rows {
        Ok(rows) => Ok(rows),
        Err(e) => Err(e.message),
    }
}

/// Deletes the clip with id `id`; a failure comes back as its message.
pub fn delete_clip(conn: &Connection, id: i64) -> (r: Result<(), String>)
    ensures
        r matches Err(m) ==> is_sqlite_error_text(m),
{
    match db::delete(conn, id) {
        Ok(()) => Ok(()),
        Err(e) => Err(e.message),
    }
}

/// Deletes the whole history; a failure comes back as its message.
pub fn clear_history(conn: &Connection) -> (r: Result<(), String>)
    ensures
        r matches Err(m) ==> is_sqlite_error_text(m),
{
    match db::clear(conn) {
        Ok(()) => Ok(()),
        Err(e) => Err(e.message),
    }
}

/// The plain text of an HTML clip: the HTML with its tags removed.
pub fn html2text(html: &str) -> (out: String)
    ensures
        out@ == stripped(html@),
{
    let mut out = String::new();
    let mut in_tag = false;
    for c in it: html.chars()
        invariant
            it.seq() == html@,
            out@ == stripped(it.seq().take(it.index())),
            in_tag == crate::paste::in_tag_after(it.seq().take(it.index())),
    {
        assert(it.seq().take(it.index() + 1).drop_last() == it.seq().take(it.index()));
        if c == '<' {
            in_tag = true;
        } else if c == '>' {
            in_tag = false;
        } else if !in_tag {
            out.push(c);
        }
    }
    assert(html@.take(html@.len() as int) == html@);
    out
}

/// What a paste puts on the pasteboard before the keystroke.
#[derive(Debug)]
pub enum PasteAction {
    /// Plain text.
    Text(String),
    /// HTML, with a plain-text fallback.
    Html(String),
    /// The PNG image stored at this path.
    Image(String),
    /// Nothing: the keystroke alone.
    SimulateOnly,
}

/// The text content of a clip, empty when it has none.
pub open spec fn content_text(entry: ClipEntry) -> Seq<char> {
    match entry.content {
        Some(c) => c@,
        None => Seq::empty(),
    }
}

/// `action` is what a paste of `entry` puts on the pasteboard. A plain paste
/// is always text: the content with its tags removed for an HTML clip, the
/// content as it is otherwise. A rich paste puts an HTML clip as HTML, a text
/// clip as text, an image clip as its image file (only the keystroke where it
/// has no file), and any other kind only the keystroke.
pub open spec fn is_paste_action_for(action: PasteAction, entry: ClipEntry, plain: bool) -> bool {
    if plain {
        action matches PasteAction::Text(t) && t@ == (if entry.kind@ == "html"@ {
            stripped(content_text(entry))
        } else {
            content_text(entry)
        })
    } else if entry.kind@ == "html"@ {
        action matches PasteAction::Html(h) && h@ == content_text(entry)
    } else if entry.kind@ == "text"@ {
        action matches PasteAction::Text(t) && t@ == content_text(entry)
    } else if entry.kind@ == "image"@ {
        match entry.image_path {
            Some(p) => action matches PasteAction::Image(q) && q@ == p@,
            None => action is SimulateOnly,
        }
    } else {
        action is SimulateOnly
    }
}

/// The kinds `html`, `text` and `image` are three different words.
proof fn lemma_paste_kinds_differ()
    ensures
        "html"@ != "text"@,
        "html"@ != "image"@,
        "text"@ != "image"@,
{
    reveal_strlit("html");
    reveal_strlit("text");
    reveal_strlit("image");
    assert("html"@[0] != "text"@[0]);
    assert("html"@.len() != "image"@.len());
    assert("text"@.len() != "image"@.len());
}

/// A rich paste of a text clip puts its content on the pasteboard exactly as
/// stored: every character, `<` and `>` included, in order.
pub proof fn lemma_rich_text_paste_is_verbatim(action: PasteAction, entry: ClipEntry)
    requires
        is_paste_action_for(action, entry, false),
        entry.kind@ == "text"@,
    ensures
        action matches PasteAction::Text(t) && t.view() == (match entry.content {
            Some(c) => c@,
            None => Seq::<char>::empty(),
        }),
{
    lemma_paste_kinds_differ();
}

/// A rich paste of an HTML clip puts its markup on the pasteboard unchanged.
pub proof fn lemma_rich_html_paste_keeps_markup(action: PasteAction, entry: ClipEntry)
    requires
        is_paste_action_for(action, entry, false),
        entry.kind@ == "html"@,
    ensures
        action matches PasteAction::Html(h) && h.view() == (match entry.content {
            Some(c) => c@,
            None => Seq::<char>::empty(),
        }),
{
}

/// A plain paste of a clip that is not HTML puts its content on the
/// pasteboard unchanged; only HTML loses its tags.
pub proof fn lemma_plain_paste_keeps_non_html_text(action: PasteAction, entry: ClipEntry)
    requires
        is_paste_action_for(action, entry, true),
        entry.kind@ != "html"@,
    ensures
        action matches PasteAction::Text(t) && t.view() == (match entry.content {
            Some(c) => c@,
            None => Seq::<char>::empty(),
        }),
{
}

/// The content of a clip, or the empty text.
fn content_or_empty(content: Option<String>) -> (s: String)
    ensures
        s@ == (match content {
            Some(c) => c@,
            None => Seq::<char>::empty(),
        }),
{
    match content {
        Some(c) => c,
        None => String::new(),
    }
}

/// Decides what a paste of `entry` puts on the pasteboard.
pub fn paste_action(entry: ClipEntry, plain: bool) -> (action: PasteAction)
    ensures
        is_paste_action_for(action, entry, plain),
        !plain && entry.kind@ == "text"@ ==> (action matches PasteAction::Text(t) && (match entry.content {
            Some(c) => t@ == c@,
            None => t@.len() == 0,
        })),
        !plain && entry.kind@ == "html"@ ==> (action matches PasteAction::Html(h) && (match entry.content {
            Some(c) => h@ == c@,
            None => h@.len() == 0,
        })),
        plain && entry.kind@ != "html"@ ==> (action matches PasteAction::Text(t) && (match entry.content {
            Some(c) => t@ == c@,
            None => t@.len() == 0,
        })),
{
    proof {
        lemma_paste_kinds_differ();
    }
    let is_html = same_text(entry.kind.as_str(), "html");
    if plain {
        let content = content_or_empty(entry.content);
        if is_html {
            PasteAction::Text(html2text(content.as_str()))
        } else {
            PasteAction::Text(content)
        }
    } else if is_html {
        PasteAction::Html(content_or_empty(entry.content))
    } else if same_text(entry.kind.as_str(), "text") {
        PasteAction::Text(content_or_empty(entry.content))
    } else if same_text(entry.kind.as_str(), "image") {
        match entry.image_path {
            Some(path) => PasteAction::Image(path),
            None => PasteAction::SimulateOnly,
        }
    } else {
        PasteAction::SimulateOnly
    }
}

/// The message a paste fails with while the accessibility permission is missing.
pub open spec fn accessibility_message() -> Seq<char> {
    "Accessibility permission required. Grant it in System Settings and restart the app."@
}

/// The first step of a paste: it may only go on with the accessibility
/// permission; without it the paste fails with a message that says so.
pub fn require_accessibility(trusted: bool) -> (r: Result<(), String>)
    ensures
        r is Ok <==> trusted,
        r matches Err(m) ==> m@ == accessibility_message(),
{
    if trusted {
        Ok(())
    } else {
        Err("Accessibility permission required. Grant it in System Settings and restart the app.".to_string())
    }
}

/// The second step of a paste, once the clip has been looked up: a failed
/// lookup fails the paste with its message, a missing clip with
/// `Entry not found`, and a clip that is there gives what is put on the
/// pasteboard.
pub fn resolve_paste(lookup: Result<Option<ClipEntry>, String>, plain: bool) -> (r: Result<PasteAction, String>)
    ensures
        lookup matches Err(m) ==> r == Err::<PasteAction, String>(m),
        lookup matches Ok(None) ==> (r matches Err(m) && m@ == "Entry not found"@),
        lookup matches Ok(Some(entry)) ==> (r matches Ok(a) && is_paste_action_for(a, entry, plain)),
{
    match lookup {
        Err(m) => Err(m),
        Ok(None) => Err("Entry not found".to_string()),
        Ok(Some(entry)) => Ok(paste_action(entry, plain)),
    }
}

} // verus!
