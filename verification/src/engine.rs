//! The SQLite engine, reached through `rusqlite`.
//!
//! Nothing in this module is proved. The engine's types are opaque, and each
//! function here is one call into the engine whose body the verifier does not
//! read. What the engine answers to a statement depends on the database
//! file, so the calls that open, prepare, query and execute promise nothing
//! about their result: the callers are verified for every answer. Reading a
//! column of a row that the engine has delivered is another matter: what
//! comes back is decided by what the row holds, and the two reads say how.
//!
//! No argument and nothing that a database file holds makes one of these
//! calls panic. In particular the two reads take the column's value without
//! asking for the column's name, which `rusqlite` cannot hand out where the
//! name is not valid UTF-8. What is left are `rusqlite`'s own assertions on
//! the engine: that the SQLite library linked at run time is not older than
//! the one built against, and that the engine hands out a text or blob that
//! it has announced, which fails only where it runs out of memory.

use vstd::prelude::*;
use std::path::PathBuf;
use rusqlite::types::{FromSql, ToSql};
use rusqlite::{Connection, Error, Row, Statement, NO_PARAMS};
use crate::row::{is_integer_read, is_text_read, ColumnValue, StoredRow};
use crate::statement::{SqlParam, WriteCommand};

verus! {

/// `rusqlite::Connection`: an open handle on a database file.
#[verifier::external_type_specification]
#[verifier::external_body]
pub struct ExConnection(rusqlite::Connection);

/// `rusqlite::Error`: why the engine refused a call.
#[verifier::external_type_specification]
#[verifier::external_body]
pub struct ExError(rusqlite::Error);

/// `rusqlite::Statement`: a statement that the engine has compiled, tied to
/// the connection it was prepared on.
#[verifier::external_type_specification]
#[verifier::external_body]
pub struct ExStatement<'conn>(rusqlite::Statement<'conn>);

/// `rusqlite::Row`: the current result row of a running statement.
#[verifier::external_type_specification]
#[verifier::external_body]
pub struct ExRow<'stmt>(rusqlite::Row<'stmt>);

/// `std::path::PathBuf`: an owned file system path.
#[verifier::external_type_specification]
#[verifier::external_body]
pub struct ExPathBuf(std::path::PathBuf);

/// `rusqlite::Connection::open`: opens the database file at `path` for
/// reading and writing, and creates it if there is none. The engine does not
/// read the file yet. Whether the call succeeds depends on the file system,
/// so nothing is claimed of the result.
#[verifier::external_body]
pub(crate) fn open_connection(path: &PathBuf) -> (r: Result<Connection, Error>) {
    Connection::open(path)
}

/// `rusqlite::Connection::prepare`: has the engine compile one statement,
/// for which it reads the schema from the file. Whether that succeeds depends
/// on the text and on the database, so nothing is claimed of the result.
#[verifier::external_body]
pub(crate) fn prepare<'conn>(conn: &'conn Connection, sql: &str) -> (r: Result<
    Statement<'conn>,
    Error,
>) {
    conn.prepare(sql)
}

/// `rusqlite::Statement::query_map`, with no bound values: runs a prepared
/// statement and hands back one item for each row that the engine stepped
/// to, in the engine's order, each row read by `StoredRow::read`; a step that
/// fails gives an `Err` item. What the rows are depends on the database, so
/// nothing is claimed of the result.
#[verifier::external_body]
pub(crate) fn query_rows(stmt: &mut Statement<'_>) -> (r: Result<
    Vec<Result<StoredRow, Error>>,
    Error,
>) {
    let rows = stmt.query_map(NO_PARAMS, |row| Ok(StoredRow::read(row)))?;
    Ok(rows.collect())
}

/// What the columns of a result row hold, in column order. A row is the
/// engine's current row for as long as it can be borrowed, so what it holds
/// does not change under a reader.
pub uninterp spec fn row_columns(row: Row<'_>) -> Seq<ColumnValue>;

/// `rusqlite::Row::get_raw_checked`, then `FromSql::column_result` for an
/// integer that may be null, a failure of the conversion turned into the
/// engine's error by `Error::from`. A column that holds null reads as
/// `Ok(None)`; one that holds an integer within the range of `i32` reads as
/// that integer. Everything else is an error: an index at or past the number
/// of columns, an integer out of range, and a value of any other type.
#[verifier::external_body]
pub(crate) fn read_integer(row: &Row<'_>, idx: usize) -> (r: Result<Option<i32>, Error>)
    ensures
        is_integer_read(row_columns(*row), idx as int, r),
{
    let value = row.get_raw_checked(idx)?;
    FromSql::column_result(value).map_err(Error::from)
}

/// `rusqlite::Row::get_raw_checked`, then `FromSql::column_result` for text
/// that may be null, a failure of the conversion turned into the engine's
/// error by `Error::from`. A column that holds null reads as `Ok(None)`; one
/// that holds valid UTF-8 text reads as that text. Everything else is an
/// error: an index at or past the number of columns, text that is not valid
/// UTF-8, and a value of any other type.
#[verifier::external_body]
pub(crate) fn read_text(row: &Row<'_>, idx: usize) -> (r: Result<Option<String>, Error>)
    ensures
        is_text_read(row_columns(*row), idx as int, r),
{
    let value = row.get_raw_checked(idx)?;
    FromSql::column_result(value).map_err(Error::from)
}

/// `rusqlite::Connection::execute`: runs one statement with the command's
/// values bound to its placeholders in order, and on success gives the number
/// of rows that it changed. The outcome depends on the database, so nothing
/// is claimed of the result.
#[verifier::external_body]
pub(crate) fn execute(conn: &Connection, command: &WriteCommand<'_>) -> (r: Result<usize, Error>) {
    let bound: Vec<&dyn ToSql> = command.params.iter().map(
        |param| match param {
            SqlParam::Integer(n) => n as &dyn ToSql,
            SqlParam::Text(text) => text as &dyn ToSql,
        },
    ).collect();
    conn.execute(command.sql, bound)
}

} // verus!
