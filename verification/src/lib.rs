//! A small persistence layer for bookmarks kept in an SQLite database file.
//!
//! A [`Bookmark`] is a URL with free-form metadata, tags and description,
//! known by an integer id. A [`SqliteDatabase`] opens a database file and
//! creates, reads, updates and deletes the rows of its `bookmarks` table;
//! the table itself is expected to be there.
//!
//! What is proved here is what the store itself decides: the text of every
//! statement and the values bound to it, the bookmark that a result row
//! stands for, which rows of a fetch are kept, and which kind of failure a
//! caller is told of. What the engine does with a statement is not proved.

pub mod bookmark;
pub mod database;
pub mod decimal;
pub mod engine;
pub mod error;
pub mod row;
pub mod statement;

pub use crate::bookmark::{Bookmark, BookmarkId};
pub use crate::database::SqliteDatabase;
pub use crate::error::StoreError;
