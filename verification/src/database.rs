//! The bookmark store: one connection to a database file, and the five
//! operations on its `bookmarks` table.
//!
//! The table is expected to exist, with an integer primary key `id` and the
//! columns `url`, `metadata`, `tags`, `desc` (text) and `flags` (integer), in
//! that order. A store holds one connection and nothing else: every call goes
//! to the engine and returns when the statement is done. A store is not meant
//! to be shared between threads without a lock around it.

use vstd::prelude::*;
use std::path::PathBuf;
use rusqlite::{Connection, Error};
use crate::bookmark::{Bookmark, BookmarkId};
use crate::engine::{execute, open_connection, prepare, query_rows};
use crate::error::{connect_outcome, query_outcome, write_outcome, StoreError};
use crate::row::{
    bookmark_of, bookmark_views, integer_or_default, kept, surviving, text_or_default, StoredRow,
};
use crate::statement::{
    delete_command, insert_command, select_by_ids, update_command, READ_SCHEMA, SELECT_ALL,
};

verus! {

/// A store of bookmarks in an SQLite database file.
pub struct SqliteDatabase {
    connection: Connection,
}

/// The bookmarks of the rows that a fetch delivered: each row that was
/// delivered and has a readable id, in the engine's order. The other rows are
/// left out without a word; a read is best effort.
pub fn bookmarks_from_rows(fetched: Vec<Result<StoredRow, Error>>) -> (bookmarks: Vec<Bookmark>)
    ensures
        bookmark_views(bookmarks@) == surviving(fetched@),
{
    let ghost items = fetched@;
    let mut bookmarks: Vec<Bookmark> = Vec::new();
    for item in it: fetched
        invariant
            it.seq() == items,
            bookmark_views(bookmarks@) == surviving(items.take(it.index())),
    {
        let ghost before = bookmarks@;
        proof {
            items.lemma_filter_map_take_succ(|item: Result<StoredRow, Error>| kept(item), it.index());
        }
        match item {
            Ok(row) => match SqliteDatabase::map_db_bookmark(row) {
                Ok(bm) => {
                    bookmarks.push(bm);
                    assert(bookmark_views(bookmarks@) =~= bookmark_views(before) + seq![bm@]);
                },
                Err(_) => {},
            },
            Err(_) => {},
        }
    }
    assert(items.take(items.len() as int) =~= items);
    bookmarks
}

impl SqliteDatabase {
    /// The connection that the store holds.
    pub closed spec fn connection(&self) -> Connection {
        self.connection
    }

    /// The store that an attempt to open a database file ends in. `opening`
    /// is what the engine said: its refusal to open the file, or else the
    /// connection together with what it said when it was made to read the
    /// file. There is a store, on that connection, exactly if the file was
    /// opened and read; either refusal is a connection failure.
    pub fn from_opening(opening: Result<(Connection, Result<(), Error>), Error>) -> (r: Result<
        SqliteDatabase,
        StoreError,
    >)
        ensures
            match opening {
                Ok((connection, Ok(_))) => r matches Ok(db) && db.connection() == connection,
                Ok((_, Err(e))) => r matches Err(StoreError::Connection(failure)) && failure == e,
                Err(e) => r matches Err(StoreError::Connection(failure)) && failure == e,
            },
    {
        let (connection, readable) = match connect_outcome(opening) {
            Ok(opened) => opened,
            Err(e) => {
                return Err(e);
            },
        };
        match connect_outcome(readable) {
            Ok(_) => Ok(SqliteDatabase { connection }),
            Err(e) => Err(e),
        }
    }

    /// Opens the database file at `path`, and has the engine read it, so that
    /// a file that is no database is refused here and not at the first
    /// operation. The tables are neither created nor looked at: a missing
    /// `bookmarks` table shows as a failure of the first operation.
    pub fn new(path: &PathBuf) -> (r: Result<SqliteDatabase, StoreError>)
        ensures
            r matches Err(e) ==> e is Connection,
    {
        let opening = match open_connection(path) {
            Ok(connection) => {
                let readable = match prepare(&connection, READ_SCHEMA) {
                    Ok(_) => Ok(()),
                    Err(e) => Err(e),
                };
                Ok((connection, readable))
            },
            Err(e) => Err(e),
        };
        SqliteDatabase::from_opening(opening)
    }

    /// The bookmark that a row stands for. The id is taken as read, null or
    /// not; each other column falls back to the empty text or to 0 where it
    /// is null or could not be read. Only an unreadable id fails the row.
    pub fn map_db_bookmark(row: StoredRow) -> (r: Result<Bookmark, Error>)
        ensures
            match bookmark_of(row) {
                Ok(view) => r matches Ok(bm) && bm@ == view,
                Err(e) => r matches Err(failure) && failure == e,
            },
    {
        match row.id {
            Ok(id) => Ok(
                Bookmark::new(
                    id,
                    text_or_default(row.url),
                    text_or_default(row.metadata),
                    text_or_default(row.tags),
                    text_or_default(row.desc),
                    integer_or_default(row.flags),
                ),
            ),
            Err(e) => Err(e),
        }
    }

    /// Runs a select and maps the rows it delivers.
    fn fetch(&self, sql: &str) -> (r: Result<Vec<Bookmark>, StoreError>)
        ensures
            r matches Err(e) ==> e is Query,
    {
        let mut stmt = match query_outcome(prepare(&self.connection, sql)) {
            Ok(stmt) => stmt,
            Err(e) => {
                return Err(e);
            },
        };
        match query_outcome(query_rows(&mut stmt)) {
            Ok(fetched) => Ok(bookmarks_from_rows(fetched)),
            Err(e) => Err(e),
        }
    }

    /// Every bookmark of the table, in the engine's order.
    pub fn get_all_bookmarks(&self) -> (r: Result<Vec<Bookmark>, StoreError>)
        ensures
            r matches Err(e) ==> e is Query,
    {
        self.fetch(SELECT_ALL)
    }

    /// The bookmarks whose id is one of `ids`, in the engine's order. No ids
    /// give no bookmarks, and the engine is not asked.
    pub fn get_bookmarks_by_id(&self, ids: Vec<BookmarkId>) -> (r: Result<Vec<Bookmark>, StoreError>)
        ensures
            ids@.len() == 0 ==> (r matches Ok(found) && found@.len() == 0),
            r matches Err(e) ==> e is Query,
    {
        if ids.len() == 0 {
            return Ok(Vec::new());
        }
        let sql = select_by_ids(&ids);
        self.fetch(sql.as_str())
    }

    /// Inserts a row with the bookmark's data; the engine assigns the id,
    /// whatever id the bookmark carries. Gives the number of rows inserted.
    pub fn add_bookmark(&self, bm: &Bookmark) -> (r: Result<usize, StoreError>)
        ensures
            r matches Err(e) ==> e is Write,
    {
        let command = insert_command(bm);
        write_outcome(execute(&self.connection, &command))
    }

    /// Overwrites the data of the row that the bookmark's id names, and gives
    /// the number of rows changed: 0 where no row has that id. A bookmark
    /// without an id is refused before the engine is asked.
    pub fn update_bookmark(&self, bm: &Bookmark) -> (r: Result<usize, StoreError>)
        ensures
            bm@.id is None <==> r matches Err(StoreError::Precondition),
            r matches Err(e) ==> e is Precondition || e is Write,
    {
        match update_command(bm) {
            Ok(command) => write_outcome(execute(&self.connection, &command)),
            Err(e) => Err(e),
        }
    }

    /// Deletes the row with the given id, and gives the number of rows
    /// deleted: 0 where no row has that id.
    pub fn delete_bookmark(&self, bm_id: &BookmarkId) -> (r: Result<usize, StoreError>)
        ensures
            r matches Err(e) ==> e is Write,
    {
        let command = delete_command(*bm_id);
        write_outcome(execute(&self.connection, &command))
    }
}

} // verus!
