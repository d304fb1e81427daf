//! The clip history store: an SQLite database with a full-text index.
//!
//! The SQL runs inside SQLite, through the calls in `sqlite`; what a query
//! returns depends on the database file. This module fixes what is handed to
//! each call and what is done with whatever comes back.
use vstd::prelude::*;
use vstd::string::to_string_from_display_ensures;

use rusqlite::{Connection, Error};
use std::path::PathBuf;

use crate::sqlite::{execute, execute_batch, join_path, open_connection, prepare, query_rows};
use crate::strings::{alphanumeric, is_white_space, lemma_trim_keeps_property, trim_seq};

verus! {

/// One captured clipboard item, as stored in the `clips` table.
#[derive(Debug, Clone)]
pub struct ClipEntry {
    pub id: i64,
    pub kind: String,
    pub content: Option<String>,
    pub image_path: Option<String>,
    pub source_app: Option<String>,
    pub hash: String,
    pub pinned: bool,
    pub created_at: i64,
}

/// A failed database call, with the message of the underlying error.
#[derive(Debug, Clone)]
pub struct DbError {
    pub message: String,
}

/// A positional parameter of an SQL statement.
#[derive(Debug)]
pub enum SqlParam {
    Int(i64),
    Text(String),
    Null,
}

/// `p` is the text parameter `s`.
pub open spec fn is_text_param(p: SqlParam, s: Seq<char>) -> bool {
    p matches SqlParam::Text(t) && t@ == s
}

/// `p` is `o` as a nullable text parameter: its text, or `NULL` for `None`.
pub open spec fn is_opt_text_param(p: SqlParam, o: Option<String>) -> bool {
    match o {
        Some(s) => is_text_param(p, s@),
        None => p is Null,
    }
}

/// `text` is the message (the `Display` text) of a `rusqlite` error.
pub open spec fn is_sqlite_error_text(text: String) -> bool {
    exists|e: Error| #[trigger] to_string_from_display_ensures::<Error>(&e, text)
}

/// `d` carries the message of a `rusqlite` error.
pub open spec fn is_sqlite_failure(d: DbError) -> bool {
    is_sqlite_error_text(d.message)
}

/// Turns a `rusqlite` error into the library's error, keeping its message.
pub fn db_error(e: Error) -> (d: DbError)
    ensures
        to_string_from_display_ensures::<Error>(&e, d.message),
        is_sqlite_failure(d),
{
    DbError { message: e.to_string() }
}

/// Keeps a success as it is and turns a `rusqlite` error into a `DbError`
/// that carries its message.
pub fn lift<T>(r: Result<T, Error>) -> (out: Result<T, DbError>)
    ensures
        out is Ok <==> r is Ok,
        r is Ok ==> out->Ok_0 == r->Ok_0,
        r matches Err(e) ==> (out matches Err(d) && to_string_from_display_ensures::<Error>(&e, d.message)),
        out matches Err(d) ==> is_sqlite_failure(d),
{
    match r {
        Ok(v) => Ok(v),
        Err(e) => Err(db_error(e)),
    }
}

/// The columns of a `clips` row as read by position: `id` (0), `kind` (1),
/// `content` (2), `image_path` (3), `source_app` (4), `hash` (5), the `pinned`
/// flag (6) and `created_at` (7).
pub struct ClipRow {
    pub id: i64,
    pub kind: String,
    pub content: Option<String>,
    pub image_path: Option<String>,
    pub source_app: Option<String>,
    pub hash: String,
    pub pinned: i32,
    pub created_at: i64,
}

/// The entry a `clips` row stands for: every column as it is, except the
/// integer `pinned` flag, which is set when it is not zero.
pub open spec fn entry_of_row(r: ClipRow) -> ClipEntry {
    ClipEntry {
        id: r.id,
        kind: r.kind,
        content: r.content,
        image_path: r.image_path,
        source_app: r.source_app,
        hash: r.hash,
        pinned: r.pinned != 0,
        created_at: r.created_at,
    }
}

/// Turns a row of `id, kind, content, image_path, source_app, hash, pinned,
/// created_at` into an entry.
pub fn row_to_entry(row: ClipRow) -> (e: ClipEntry)
    ensures
        e == entry_of_row(row),
        e.id == row.id,
        e.kind == row.kind,
        e.content == row.content,
        e.image_path == row.image_path,
        e.source_app == row.source_app,
        e.hash == row.hash,
        e.pinned == (row.pinned != 0),
        e.created_at == row.created_at,
{
    ClipEntry {
        id: row.id,
        kind: row.kind,
        content: row.content,
        image_path: row.image_path,
        source_app: row.source_app,
        hash: row.hash,
        pinned: row.pinned != 0,
        created_at: row.created_at,
    }
}

/// Every row turned into its entry, in order.
pub fn rows_to_entries(rows: Vec<ClipRow>) -> (entries: Vec<ClipEntry>)
    ensures
        entries@ == rows@.map_values(|r: ClipRow| entry_of_row(r)),
{
    let ghost all = rows@;
    let mut entries: Vec<ClipEntry> = Vec::new();
    for r in it: rows.into_iter()
        invariant
            it.seq() == all,
            entries@ == all.take(it.index()).map_values(|r: ClipRow| entry_of_row(r)),
    {
        entries.push(row_to_entry(r));
        assert(all.take(it.index() + 1) == all.take(it.index()).push(r));
        assert(entries@ =~= all.take(it.index() + 1).map_values(|r: ClipRow| entry_of_row(r)));
    }
    assert(all.take(all.len() as int) == all);
    entries
}

/// The name of the history database file inside the data directory.
pub const DB_FILE_NAME: &'static str = "history.db";

/// The connection settings applied when the database is opened.
pub const PRAGMA_SQL: &'static str = "PRAGMA journal_mode=WAL; PRAGMA synchronous=NORMAL;";

/// The schema: the `clips` table, its index by creation time, the full-text
/// index over `content` and the triggers that keep that index in step.
pub const SCHEMA_SQL: &'static str = "CREATE TABLE IF NOT EXISTS clips (
            id         INTEGER PRIMARY KEY AUTOINCREMENT,
            kind       TEXT    NOT NULL,
            content    TEXT,
            image_path TEXT,
            source_app TEXT,
            hash       TEXT    NOT NULL UNIQUE,
            pinned     INTEGER NOT NULL DEFAULT 0,
            created_at INTEGER NOT NULL
        );
        CREATE INDEX IF NOT EXISTS idx_clips_created ON clips(created_at DESC);

        CREATE VIRTUAL TABLE IF NOT EXISTS clips_fts USING fts5(
            content,
            content='clips',
            content_rowid='id'
        );

        CREATE TRIGGER IF NOT EXISTS clips_ai AFTER INSERT ON clips BEGIN
            INSERT INTO clips_fts(rowid, content) VALUES (new.id, new.content);
        END;
        CREATE TRIGGER IF NOT EXISTS clips_ad AFTER DELETE ON clips BEGIN
            INSERT INTO clips_fts(clips_fts, rowid, content) VALUES('delete', old.id, old.content);
        END;";

/// Insert a clip as unpinned; on a clip with the same hash, only refresh its
/// creation time.
pub const UPSERT_SQL: &'static str = "INSERT INTO clips (kind, content, image_path, source_app, hash, pinned, created_at)
         VALUES (?1, ?2, ?3, ?4, ?5, 0, ?6)
         ON CONFLICT(hash) DO UPDATE SET created_at = excluded.created_at";

/// Up to `?1` clips, newest first, after skipping `?2`.
pub const LIST_SQL: &'static str = "SELECT id, kind, content, image_path, source_app, hash, pinned, created_at
         FROM clips ORDER BY created_at DESC LIMIT ?1 OFFSET ?2";

/// Up to `?2` clips whose content matches the full-text query `?1`, best
/// ranked first.
pub const FTS_SQL: &'static str = "SELECT c.id, c.kind, c.content, c.image_path, c.source_app, c.hash, c.pinned, c.created_at
             FROM clips_fts
             JOIN clips c ON c.id = clips_fts.rowid
             WHERE clips_fts MATCH ?1
             ORDER BY bm25(clips_fts)
             LIMIT ?2";

/// Up to `?2` clips whose content matches the `LIKE` pattern `?1`, newest
/// first.
pub const LIKE_SQL: &'static str = "SELECT id, kind, content, image_path, source_app, hash, pinned, created_at
                 FROM clips WHERE content LIKE ?1 ESCAPE '\\'
                 ORDER BY created_at DESC LIMIT ?2";

/// Delete the clip with id `?1`.
pub const DELETE_SQL: &'static str = "DELETE FROM clips WHERE id = ?1";

/// Delete every clip.
pub const CLEAR_SQL: &'static str = "DELETE FROM clips";

/// Rebuild the full-text index from the table.
pub const REBUILD_FTS_SQL: &'static str = "INSERT INTO clips_fts(clips_fts) VALUES('rebuild')";

/// Delete every unpinned clip that is not among the `?1` newest.
pub const PRUNE_SQL: &'static str = "DELETE FROM clips WHERE pinned = 0 AND id NOT IN (
            SELECT id FROM clips ORDER BY created_at DESC LIMIT ?1
         )";

/// The clip with id `?1`.
pub const GET_BY_ID_SQL: &'static str = "SELECT id, kind, content, image_path, source_app, hash, pinned, created_at
         FROM clips WHERE id = ?1";

/// One SQL statement with its positional parameters (`?1`, `?2`, ... in order).
pub struct SqlStatement {
    pub sql: &'static str,
    pub params: Vec<SqlParam>,
}

/// Opens the history database `history.db` inside `data_dir`, which must
/// exist, applies `PRAGMA_SQL`, and creates what `SCHEMA_SQL` describes where
/// it is missing.
pub fn open(data_dir: &PathBuf) -> (r: Result<Connection, DbError>)
    ensures
        r matches Err(d) ==> is_sqlite_failure(d),
{
    let db_path = join_path(data_dir, DB_FILE_NAME);
    let conn = lift(open_connection(&db_path))?;
    lift(execute_batch(&conn, PRAGMA_SQL))?;
    lift(execute_batch(&conn, SCHEMA_SQL))?;
    Ok(conn)
}

/// A nullable text parameter: the text, or `NULL`.
pub fn opt_text_param(o: &Option<String>) -> (p: SqlParam)
    ensures
        is_opt_text_param(p, *o),
{
    match o {
        Some(s) => SqlParam::Text(s.clone()),
        None => SqlParam::Null,
    }
}

/// The insert-or-refresh statement for `entry`: `UPSERT_SQL` with its kind,
/// content, image path, source app, hash and creation time, in that order.
pub fn upsert_statement(entry: &ClipEntry) -> (s: SqlStatement)
    ensures
        s.sql@ == UPSERT_SQL@,
        s.params.len() == 6,
        is_text_param(s.params[0], entry.kind@),
        is_opt_text_param(s.params[1], entry.content),
        is_opt_text_param(s.params[2], entry.image_path),
        is_opt_text_param(s.params[3], entry.source_app),
        is_text_param(s.params[4], entry.hash@),
        s.params[5] == SqlParam::Int(entry.created_at),
{
    let mut p: Vec<SqlParam> = Vec::new();
    p.push(SqlParam::Text(entry.kind.clone()));
    p.push(opt_text_param(&entry.content));
    p.push(opt_text_param(&entry.image_path));
    p.push(opt_text_param(&entry.source_app));
    p.push(SqlParam::Text(entry.hash.clone()));
    p.push(SqlParam::Int(entry.created_at));
    SqlStatement { sql: UPSERT_SQL, params: p }
}

/// The listing statement: `LIST_SQL` with `limit` and `offset`.
pub fn list_statement(limit: i64, offset: i64) -> (s: SqlStatement)
    ensures
        s.sql@ == LIST_SQL@,
        s.params@ == seq![SqlParam::Int(limit), SqlParam::Int(offset)],
{
    SqlStatement { sql: LIST_SQL, params: vec![SqlParam::Int(limit), SqlParam::Int(offset)] }
}

/// The ranked search statement: `FTS_SQL` with the full-text query for
/// `query` and `limit`.
pub fn fts_statement(query: &str, limit: i64) -> (s: SqlStatement)
    ensures
        s.sql@ == FTS_SQL@,
        s.params.len() == 2,
        is_text_param(s.params[0], fts_query_text(query@)),
        s.params[1] == SqlParam::Int(limit),
{
    SqlStatement { sql: FTS_SQL, params: vec![SqlParam::Text(fts_query(query)), SqlParam::Int(limit)] }
}

/// The fallback search statement: `LIKE_SQL` with the `LIKE` pattern for
/// `query` and `limit`.
pub fn like_statement(query: &str, limit: i64) -> (s: SqlStatement)
    ensures
        s.sql@ == LIKE_SQL@,
        s.params.len() == 2,
        is_text_param(s.params[0], like_pattern_text(query@)),
        s.params[1] == SqlParam::Int(limit),
{
    SqlStatement { sql: LIKE_SQL, params: vec![SqlParam::Text(like_pattern(query)), SqlParam::Int(limit)] }
}

/// The deletion statement: `DELETE_SQL` with `id`.
pub fn delete_statement(id: i64) -> (s: SqlStatement)
    ensures
        s.sql@ == DELETE_SQL@,
        s.params@ == seq![SqlParam::Int(id)],
{
    SqlStatement { sql: DELETE_SQL, params: vec![SqlParam::Int(id)] }
}

/// The statement that deletes every clip: `CLEAR_SQL`, without parameters.
pub fn clear_statement() -> (s: SqlStatement)
    ensures
        s.sql@ == CLEAR_SQL@,
        s.params@.len() == 0,
{
    SqlStatement { sql: CLEAR_SQL, params: Vec::new() }
}

/// The pruning statement: `PRUNE_SQL` with `max_items`.
pub fn prune_statement(max_items: i64) -> (s: SqlStatement)
    ensures
        s.sql@ == PRUNE_SQL@,
        s.params@ == seq![SqlParam::Int(max_items)],
{
    SqlStatement { sql: PRUNE_SQL, params: vec![SqlParam::Int(max_items)] }
}

/// The lookup statement: `GET_BY_ID_SQL` with `id`.
pub fn get_by_id_statement(id: i64) -> (s: SqlStatement)
    ensures
        s.sql@ == GET_BY_ID_SQL@,
        s.params@ == seq![SqlParam::Int(id)],
{
    SqlStatement { sql: GET_BY_ID_SQL, params: vec![SqlParam::Int(id)] }
}

/// Runs the query `s` and turns its rows into entries, in order.
fn query_clips(conn: &Connection, s: &SqlStatement) -> Result<Vec<ClipEntry>, Error> {
    let mut stmt = prepare(conn, s.sql)?;
    let rows = query_rows(&mut stmt, &s.params)?;
    Ok(rows_to_entries(rows))
}

/// Runs the statement `s`, which returns no rows.
fn run_statement(conn: &Connection, s: &SqlStatement) -> (r: Result<(), DbError>)
    ensures
        r matches Err(d) ==> is_sqlite_failure(d),
{
    lift(execute(conn, s.sql, &s.params))?;
    Ok(())
}

/// Inserts `entry` as a new, unpinned clip; where a clip with the same hash
/// is already stored, only its creation time is set to that of `entry`.
pub fn upsert(conn: &Connection, entry: &ClipEntry) -> (r: Result<(), DbError>)
    ensures
        r matches Err(d) ==> is_sqlite_failure(d),
{
    run_statement(conn, &upsert_statement(entry))
}

/// Up to `limit` clips, newest first, after skipping the `offset` newest.
pub fn list(conn: &Connection, limit: i64, offset: i64) -> (r: Result<Vec<ClipEntry>, DbError>)
    ensures
        r matches Err(d) ==> is_sqlite_failure(d),
        r matches Ok(rows) ==> (limit >= 0 ==> rows.len() <= limit),
{
    let rows = lift(query_clips(conn, &list_statement(limit, offset)))?;
    Ok(at_most(rows, limit))
}

/// The first `limit` of `rows` when `limit` is not negative (SQLite's `LIMIT`
/// already bounds a query's rows this way; the bound is kept here so that it
/// holds by proof), all of them when `limit` is negative, as `LIMIT` reads a
/// negative bound as none.
pub fn at_most(rows: Vec<ClipEntry>, limit: i64) -> (out: Vec<ClipEntry>)
    ensures
        limit >= 0 && rows.len() > limit ==> out@ == rows@.take(limit as int),
        !(limit >= 0 && rows.len() > limit) ==> out@ == rows@,
        limit >= 0 ==> out.len() <= limit,
{
    let mut rows = rows;
    if limit >= 0 && (rows.len() as u64) > (limit as u64) {
        rows.truncate(limit as usize);
    }
    rows
}

/// A character that may stay in a full-text query: a letter or digit,
/// whitespace, or `-`. Everything else has a meaning in FTS5 syntax.
pub open spec fn fts_allowed(c: char) -> bool {
    alphanumeric(c) || is_white_space(c) || c == '-'
}

/// The characters of `s` that may stay in a full-text query, in order.
pub open spec fn fts_clean(s: Seq<char>) -> Seq<char> {
    s.filter(|c: char| fts_allowed(c))
}

/// The ranked prefix query for the search text `q`: its allowed characters,
/// trimmed, followed by `*`.
pub open spec fn fts_query_text(q: Seq<char>) -> Seq<char> {
    trim_seq(fts_clean(q)).push('*')
}

/// The `LIKE` pattern for the search text `q`: `q` trimmed, between two `%`.
pub open spec fn like_pattern_text(q: Seq<char>) -> Seq<char> {
    seq!['%'] + trim_seq(q) + seq!['%']
}

proof fn lemma_fts_clean_allowed(s: Seq<char>)
    ensures
        forall|i: int| 0 <= i < fts_clean(s).len() ==> fts_allowed(#[trigger] fts_clean(s)[i]),
{
    assert forall|i: int| 0 <= i < fts_clean(s).len() implies fts_allowed(#[trigger] fts_clean(s)[i]) by {
        s.lemma_filter_pred(|c: char| fts_allowed(c), i);
    }
}

/// The full-text query holds no FTS5 operator: all its characters but the
/// final `*` are letters, digits, whitespace or `-`.
pub proof fn lemma_fts_query_is_plain_prefix(q: Seq<char>)
    ensures
        fts_query_text(q).len() >= 1,
        fts_query_text(q).last() == '*',
        forall|i: int| 0 <= i < fts_query_text(q).len() - 1 ==> fts_allowed(#[trigger] fts_query_text(q)[i]),
{
    lemma_fts_clean_allowed(q);
    lemma_trim_keeps_property(fts_clean(q), |c: char| fts_allowed(c));
    let t = trim_seq(fts_clean(q));
    assert forall|i: int| 0 <= i < fts_query_text(q).len() - 1 implies fts_allowed(#[trigger] fts_query_text(q)[i]) by {
        assert(fts_query_text(q)[i] == t[i]);
    }
}

/// The full-text query that `search` runs first for `query`.
pub fn fts_query(query: &str) -> (out: String)
    ensures
        out@ == fts_query_text(query@),
{
    let mut clean = String::new();
    for c in it: query.chars()
        invariant
            it.seq() == query@,
            clean@ == fts_clean(it.seq().take(it.index())),
    {
        assert(it.seq().take(it.index() + 1).drop_last() == it.seq().take(it.index()));
        reveal_with_fuel(Seq::filter, 1);
        if c.is_alphanumeric() || c.is_whitespace() || c == '-' {
            clean.push(c);
        }
    }
    assert(query@.take(query@.len() as int) == query@);
    let mut out = clean.as_str().trim().to_owned();
    out.push('*');
    out
}

/// The `LIKE` pattern that `search` falls back to for `query`.
pub fn like_pattern(query: &str) -> (out: String)
    ensures
        out@ == like_pattern_text(query@),
{
    let mut out = String::new();
    out.push('%');
    out.append(query.trim());
    out.push('%');
    out
}

/// The outcome of the ranked full-text query, where it is used: its rows
/// when it succeeded with at least one row; `None` (fall back) otherwise.
pub fn ranked_result(fts: Result<Vec<ClipEntry>, Error>) -> (out: Option<Vec<ClipEntry>>)
    ensures
        out is Some <==> (fts is Ok && fts->Ok_0.len() > 0),
        out is Some ==> out->0 == fts->Ok_0,
{
    match fts {
        Ok(rows) => {
            if rows.len() > 0 {
                Some(rows)
            } else {
                None
            }
        },
        Err(_) => None,
    }
}

/// Up to `limit` clips that match `query`: by the ranked full-text prefix
/// query when it yields rows, else those whose content contains the trimmed
/// query, newest first.
pub fn search(conn: &Connection, query: &str, limit: i64) -> (r: Result<Vec<ClipEntry>, DbError>)
    ensures
        r matches Err(d) ==> is_sqlite_failure(d),
        r matches Ok(rows) ==> (limit >= 0 ==> rows.len() <= limit),
{
    let rows = match ranked_result(query_clips(conn, &fts_statement(query, limit))) {
        Some(rows) => rows,
        None => lift(query_clips(conn, &like_statement(query, limit)))?,
    };
    Ok(at_most(rows, limit))
}

/// Deletes the clip with id `id`, if there is one.
pub fn delete(conn: &Connection, id: i64) -> (r: Result<(), DbError>)
    ensures
        r matches Err(d) ==> is_sqlite_failure(d),
{
    run_statement(conn, &delete_statement(id))
}

/// Deletes every clip and rebuilds the full-text index.
pub fn clear(conn: &Connection) -> (r: Result<(), DbError>)
    ensures
        r matches Err(d) ==> is_sqlite_failure(d),
{
    run_statement(conn, &clear_statement())?;
    lift(execute_batch(conn, REBUILD_FTS_SQL))?;
    Ok(())
}

/// Deletes every unpinned clip that is not among the `max_items` newest.
pub fn prune(conn: &Connection, max_items: i64) -> (r: Result<(), DbError>)
    ensures
        r matches Err(d) ==> is_sqlite_failure(d),
{
    run_statement(conn, &prune_statement(max_items))
}

/// The first of `rows`, if there is one.
pub fn first_row(rows: Vec<ClipEntry>) -> (out: Option<ClipEntry>)
    ensures
        rows.len() == 0 ==> out is None,
        rows.len() > 0 ==> out == Some(rows[0]),
{
    let mut rows = rows;
    if rows.len() == 0 {
        None
    } else {
        Some(rows.remove(0))
    }
}

/// The clip with id `id`, or `None` when there is none.
pub fn get_by_id(conn: &Connection, id: i64) -> (r: Result<Option<ClipEntry>, DbError>)
    ensures
        r matches Err(d) ==> is_sqlite_failure(d),
{
    let rows = lift(query_clips(conn, &get_by_id_statement(id)))?;
    Ok(first_row(rows))
}

} // verus!
