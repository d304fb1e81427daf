//! The SQLite calls the history store makes, through `rusqlite`.
//!
//! Every result here depends on what the database file holds, so none of these
//! items promises anything about the rows or the outcome; the verified callers
//! in `db` fix what is handed to each call and state what they do with
//! whatever comes back.
use vstd::prelude::*;

use rusqlite::types::Value;
use rusqlite::{Connection, Error, Row, Statement};
use std::path::PathBuf;

use crate::db::{ClipRow, SqlParam};

verus! {

/// An open SQLite connection (`rusqlite::Connection`), carried through opaquely.
#[verifier::external_type_specification]
#[verifier::external_body]
pub struct ExConnection(Connection);

/// The error type of every `rusqlite` call (`rusqlite::Error`).
#[verifier::external_type_specification]
#[verifier::external_body]
pub struct ExSqliteError(Error);

/// One result row of a query (`rusqlite::Row`).
#[verifier::external_type_specification]
#[verifier::external_body]
pub struct ExRow<'stmt>(Row<'stmt>);

/// A compiled statement (`rusqlite::Statement`).
#[verifier::external_type_specification]
#[verifier::external_body]
pub struct ExStatement<'conn>(Statement<'conn>);

/// A filesystem path (`std::path::PathBuf`).
#[verifier::external_type_specification]
#[verifier::external_body]
pub struct ExPathBuf(PathBuf);

/// `Path::join`: the path of `name` inside `dir`. Nothing is claimed of the result.
#[verifier::external_body]
pub fn join_path(dir: &PathBuf, name: &str) -> PathBuf {
    dir.join(name)
}

/// `rusqlite::Connection::open`: opens (creating it if needed) the database
/// file at `path`. Whether it succeeds depends on the filesystem; nothing is
/// claimed.
#[verifier::external_body]
pub fn open_connection(path: &PathBuf) -> Result<Connection, Error> {
    Connection::open(path)
}

/// `rusqlite::Connection::execute_batch`: runs the `;`-separated statements
/// of `sql` in order. The outcome depends on the database; nothing is claimed.
#[verifier::external_body]
pub fn execute_batch(conn: &Connection, sql: &str) -> Result<(), Error> {
    conn.execute_batch(sql)
}

/// `rusqlite::Connection::execute`: runs the single statement `sql` with the
/// positional parameters `params` (`?1`, `?2`, ... in order; each parameter
/// is converted one for one to a `rusqlite::types::Value`) and returns the
/// number of changed rows. The outcome depends on the database; nothing is
/// claimed.
#[verifier::external_body]
pub fn execute(conn: &Connection, sql: &str, params: &Vec<SqlParam>) -> Result<usize, Error> {
    let values = params.iter().map(|p| match p {
        SqlParam::Int(i) => Value::Integer(*i),
        SqlParam::Text(s) => Value::Text(s.clone()),
        SqlParam::Null => Value::Null,
    });
    conn.execute(sql, rusqlite::params_from_iter(values))
}

/// `rusqlite::Connection::prepare`: compiles the single statement `sql`.
/// Whether it compiles depends on the database schema; nothing is claimed.
#[verifier::external_body]
pub fn prepare<'conn>(conn: &'conn Connection, sql: &str) -> Result<Statement<'conn>, Error> {
    conn.prepare(sql)
}

/// `rusqlite::Statement::query_map`, with its rows collected: runs `stmt`
/// with the positional parameters `params` (converted one for one as in
/// `execute`) and reads each result row with `read_clip_row`, stopping at the
/// first error. The rows depend on the database; nothing is claimed.
#[verifier::external_body]
pub fn query_rows(stmt: &mut Statement, params: &Vec<SqlParam>) -> Result<Vec<ClipRow>, Error> {
    let values = params.iter().map(|p| match p {
        SqlParam::Int(i) => Value::Integer(*i),
        SqlParam::Text(s) => Value::Text(s.clone()),
        SqlParam::Null => Value::Null,
    });
    let rows = stmt.query_map(rusqlite::params_from_iter(values), read_clip_row)?;
    rows.collect()
}

/// `rusqlite::Row::get`, by position: reads columns 0 to 7 of `row` into the
/// fields of a `ClipRow` in their order (`NULL` reads as `None` for the
/// nullable text columns), stopping at the first column that cannot be read.
/// The values depend on the row; nothing is claimed.
#[verifier::external_body]
pub fn read_clip_row(row: &Row) -> Result<ClipRow, Error> {
    Ok(ClipRow {
        id: row.get(0)?,
        kind: row.get(1)?,
        content: row.get(2)?,
        image_path: row.get(3)?,
        source_app: row.get(4)?,
        hash: row.get(5)?,
        pinned: row.get(6)?,
        created_at: row.get(7)?,
    })
}

} // verus!
