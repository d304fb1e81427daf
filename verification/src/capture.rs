//! What the clipboard watcher decides each time the clipboard changes:
//! whether the new content is captured, and how a captured entry is stored.
//! Reading the clipboard and the frontmost application is system I/O and
//! happens in the application.
use vstd::prelude::*;

use rusqlite::Connection;

use crate::db::{self, ClipEntry, DbError};
use crate::strings::ascii_lower_seq;

verus! {

/// `name` matches one of `apps`, ignoring ASCII case.
pub open spec fn excluded(name: Seq<char>, apps: Seq<String>) -> bool {
    exists|i: int| 0 <= i < apps.len() && ascii_lower_seq(#[trigger] apps[i]@) == ascii_lower_seq(name)
}

/// Whether the application `app_name` is one of `exclude_apps`, ignoring ASCII case.
pub fn is_excluded_app(app_name: &str, exclude_apps: &Vec<String>) -> (r: bool)
    ensures
        r == excluded(app_name@, exclude_apps@),
        forall|i: int|
            0 <= i < exclude_apps@.len() && ascii_lower_seq(#[trigger] exclude_apps@[i]@)
                == ascii_lower_seq(app_name@) ==> r,
        forall|i: int| 0 <= i < exclude_apps@.len() && #[trigger] exclude_apps@[i]@ == app_name@ ==> r,
        r ==> exists|i: int|
            0 <= i < exclude_apps@.len() && ascii_lower_seq(#[trigger] exclude_apps@[i]@)
                == ascii_lower_seq(app_name@),
{
    let n = exclude_apps.len();
    for i in 0..n
        invariant
            n == exclude_apps@.len(),
            forall|j: int| 0 <= j < i ==> ascii_lower_seq(#[trigger] exclude_apps@[j]@) != ascii_lower_seq(app_name@),
    {
        if exclude_apps[i].as_str().eq_ignore_ascii_case(app_name) {
            assert(ascii_lower_seq(exclude_apps@[i as int]@) == ascii_lower_seq(app_name@));
            return true;
        }
    }
    false
}

/// Whether a clipboard change is captured: not when the content is marked
/// concealed (a password manager's), and not when it comes from an excluded
/// application. A change whose source is unknown is captured.
pub fn should_capture(concealed: bool, source: &Option<String>, exclude_apps: &Vec<String>) -> (r: bool)
    ensures
        r == (!concealed && !(source matches Some(name) && excluded(name@, exclude_apps@))),
        concealed ==> !r,
        source is None ==> r == !concealed,
        forall|i: int|
            0 <= i < exclude_apps@.len() && (source matches Some(name) && ascii_lower_seq(
                #[trigger] exclude_apps@[i]@,
            ) == ascii_lower_seq(name@)) ==> !r,
{
    if concealed {
        return false;
    }
    match source {
        Some(name) => !is_excluded_app(name.as_str(), exclude_apps),
        None => true,
    }
}

/// Every application of the list is excluded, wherever it stands in it, and
/// so is any name that differs from it only in ASCII case.
pub proof fn lemma_listed_app_is_excluded(name: Seq<char>, apps: Seq<String>, i: int)
    requires
        0 <= i < apps.len(),
        ascii_lower_seq(apps[i]@) == ascii_lower_seq(name),
    ensures
        excluded(name, apps),
{
    assert(ascii_lower_seq(apps[i]@) == ascii_lower_seq(name));
}

/// A name is excluded only when it matches an application of the list,
/// ignoring ASCII case.
pub proof fn lemma_excluded_only_when_listed(name: Seq<char>, apps: Seq<String>)
    requires
        excluded(name, apps),
    ensures
        exists|i: int| 0 <= i < apps.len() && ascii_lower_seq(#[trigger] apps[i]@) == ascii_lower_seq(name),
{
}

/// Whether an application is excluded does not depend on the ASCII case of
/// its name.
pub proof fn lemma_exclusion_ignores_ascii_case(a: Seq<char>, b: Seq<char>, apps: Seq<String>)
    requires
        ascii_lower_seq(a) == ascii_lower_seq(b),
    ensures
        excluded(a, apps) == excluded(b, apps),
{
}

/// Stores a captured entry and then trims the history to `max_items`
/// unpinned clips; the trimming happens whether or not the store succeeded,
/// and the outcome reported is that of the store.
pub fn store_capture(conn: &Connection, entry: &ClipEntry, max_items: i64) -> (r: Result<(), DbError>)
    ensures
        r matches Err(d) ==> db::is_sqlite_failure(d),
{
    let stored = db::upsert(conn, entry);
    let _ = db::prune(conn, max_items);
    stored
}

} // verus!
