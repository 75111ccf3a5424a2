//! A result row as it was read from the engine, and the bookmark it stands
//! for.

use vstd::prelude::*;
use rusqlite::{Error, Row};
use crate::bookmark::{Bookmark, BookmarkId, BookmarkView};
use crate::engine::{read_integer, read_text, row_columns};

verus! {

/// What one column of a result row holds, as the engine reports it.
pub enum ColumnValue {
    /// Null.
    Null,
    /// An integer.
    Integer(i64),
    /// Text that is valid UTF-8, by its characters.
    Text(Seq<char>),
    /// Anything else: a real number, a blob, or text that is not valid UTF-8.
    Other,
}

/// Whether `read` is what reading column `idx` as an integer that may be null
/// gives, for a row that holds `columns`: nothing for null, the integer where
/// the column holds one that fits in 32 bits, and a failure for every other
/// value and for a column that the row does not have.
pub open spec fn is_integer_read(
    columns: Seq<ColumnValue>,
    idx: int,
    read: Result<Option<i32>, Error>,
) -> bool {
    if 0 <= idx < columns.len() {
        match columns[idx] {
            ColumnValue::Null => read matches Ok(None),
            ColumnValue::Integer(n) => if i32::MIN <= n <= i32::MAX {
                read matches Ok(Some(m)) && m == n
            } else {
                read is Err
            },
            _ => read is Err,
        }
    } else {
        read is Err
    }
}

/// Whether `read` is what reading column `idx` as text that may be null
/// gives, for a row that holds `columns`: nothing for null, the text where
/// the column holds text, and a failure for every other value and for a
/// column that the row does not have.
pub open spec fn is_text_read(
    columns: Seq<ColumnValue>,
    idx: int,
    read: Result<Option<String>, Error>,
) -> bool {
    if 0 <= idx < columns.len() {
        match columns[idx] {
            ColumnValue::Null => read matches Ok(None),
            ColumnValue::Text(text) => read matches Ok(Some(s)) && s@ == text,
            _ => read is Err,
        }
    } else {
        read is Err
    }
}

/// What reading the six columns of one result row gave, column by column.
/// `Ok(None)` is a column that holds null; `Err` is a column that could not
/// be read as the type asked for.
#[derive(Debug, PartialEq)]
pub struct StoredRow {
    pub id: Result<Option<BookmarkId>, Error>,
    pub url: Result<Option<String>, Error>,
    pub metadata: Result<Option<String>, Error>,
    pub tags: Result<Option<String>, Error>,
    pub desc: Result<Option<String>, Error>,
    pub flags: Result<Option<i32>, Error>,
}

/// The text that a column stands for: what was read, or the empty text for a
/// null column and for one that could not be read.
pub open spec fn text_or_empty(read: Result<Option<String>, Error>) -> Seq<char> {
    match read {
        Ok(Some(text)) => text@,
        _ => Seq::empty(),
    }
}

/// The integer that a column stands for: what was read, or 0 for a null
/// column and for one that could not be read.
pub open spec fn integer_or_zero(read: Result<Option<i32>, Error>) -> i32 {
    match read {
        Ok(Some(n)) => n,
        _ => 0,
    }
}

/// The bookmark that a row stands for. Only the id decides whether there is
/// one: a row whose id could not be read stands for none, and the failure of
/// that read is the reason.
pub open spec fn bookmark_of(row: StoredRow) -> Result<BookmarkView, Error> {
    match row.id {
        Ok(id) => Ok(
            BookmarkView {
                id,
                url: text_or_empty(row.url),
                metadata: text_or_empty(row.metadata),
                tags: text_or_empty(row.tags),
                desc: text_or_empty(row.desc),
                flags: integer_or_zero(row.flags),
            },
        ),
        Err(e) => Err(e),
    }
}

/// The bookmark that one fetched item contributes to a result, if any: none
/// for a row that the engine failed to deliver, none for a row without a
/// readable id.
pub open spec fn kept(item: Result<StoredRow, Error>) -> Option<BookmarkView> {
    match item {
        Ok(row) => match bookmark_of(row) {
            Ok(bm) => Some(bm),
            Err(_) => None,
        },
        Err(_) => None,
    }
}

/// The bookmarks that a fetch yields: those of the rows that are kept, in
/// the order of the rows.
pub open spec fn surviving(items: Seq<Result<StoredRow, Error>>) -> Seq<BookmarkView> {
    items.filter_map(|item: Result<StoredRow, Error>| kept(item))
}

/// The text that column `idx` of a row gives to a bookmark: the text it
/// holds, and the empty text where it holds anything else or is not there.
pub open spec fn text_of_column(columns: Seq<ColumnValue>, idx: int) -> Seq<char> {
    if 0 <= idx < columns.len() && columns[idx] is Text {
        columns[idx]->Text_0
    } else {
        Seq::empty()
    }
}

/// The integer that column `idx` of a row gives to a bookmark: the integer it
/// holds where that fits in 32 bits, and 0 where it holds anything else or is
/// not there.
pub open spec fn integer_of_column(columns: Seq<ColumnValue>, idx: int) -> i32 {
    if 0 <= idx < columns.len() && columns[idx] is Integer && i32::MIN <= columns[idx]->Integer_0
        <= i32::MAX {
        columns[idx]->Integer_0 as i32
    } else {
        0
    }
}

/// Whether the first column of a row can be read as an id: it is null, or an
/// integer that fits in 32 bits.
pub open spec fn has_readable_id(columns: Seq<ColumnValue>) -> bool {
    columns.len() > 0 && (columns[0] is Null || (columns[0] is Integer && i32::MIN
        <= columns[0]->Integer_0 <= i32::MAX))
}

/// The bookmark that a row which holds `columns` stands for, if any. The
/// columns count by position: id, url, metadata, tags, desc, flags. A row
/// without a readable id stands for none; a null id is an absent id.
pub open spec fn bookmark_of_columns(columns: Seq<ColumnValue>) -> Option<BookmarkView> {
    if has_readable_id(columns) {
        Some(
            BookmarkView {
                id: if columns[0] is Null {
                    None
                } else {
                    Some(columns[0]->Integer_0 as i32)
                },
                url: text_of_column(columns, 1),
                metadata: text_of_column(columns, 2),
                tags: text_of_column(columns, 3),
                desc: text_of_column(columns, 4),
                flags: integer_of_column(columns, 5),
            },
        )
    } else {
        None
    }
}

/// The values of a sequence of bookmarks.
pub open spec fn bookmark_views(bookmarks: Seq<Bookmark>) -> Seq<BookmarkView> {
    bookmarks.map_values(|bm: Bookmark| bm@)
}

impl StoredRow {
    /// Whether this is what reading a row that holds `columns` gives: the
    /// columns are taken by position, in the order id, url, metadata, tags,
    /// desc, flags; the id and the flags are read as integers, the others as
    /// text.
    pub open spec fn is_read_of(self, columns: Seq<ColumnValue>) -> bool {
        &&& is_integer_read(columns, 0, self.id)
        &&& is_text_read(columns, 1, self.url)
        &&& is_text_read(columns, 2, self.metadata)
        &&& is_text_read(columns, 3, self.tags)
        &&& is_text_read(columns, 4, self.desc)
        &&& is_integer_read(columns, 5, self.flags)
    }

    /// Reads the six columns of a result row by position: id, url, metadata,
    /// tags, desc, flags.
    pub(crate) fn read(row: &Row<'_>) -> (stored: StoredRow)
        ensures
            stored.is_read_of(row_columns(*row)),
    {
        StoredRow {
            id: read_integer(row, 0),
            url: read_text(row, 1),
            metadata: read_text(row, 2),
            tags: read_text(row, 3),
            desc: read_text(row, 4),
            flags: read_integer(row, 5),
        }
    }
}

/// The text of a column, empty where there is none.
pub fn text_or_default(read: Result<Option<String>, Error>) -> (text: String)
    ensures
        text@ == text_or_empty(read),
{
    match read {
        Ok(Some(text)) => text,
        _ => String::new(),
    }
}

/// The integer of a column, 0 where there is none.
pub fn integer_or_default(read: Result<Option<i32>, Error>) -> (n: i32)
    ensures
        n == integer_or_zero(read),
{
    match read {
        Ok(Some(n)) => n,
        _ => 0,
    }
}

/// Null columns give defaults: in the bookmark that a row stands for, a null
/// text column is the empty text and null flags are 0.
pub proof fn lemma_null_columns_default(row: StoredRow)
    ensures
        bookmark_of(row) matches Ok(bm) ==> {
            &&& row.url matches Ok(None) ==> bm.url == Seq::<char>::empty()
            &&& row.metadata matches Ok(None) ==> bm.metadata == Seq::<char>::empty()
            &&& row.tags matches Ok(None) ==> bm.tags == Seq::<char>::empty()
            &&& row.desc matches Ok(None) ==> bm.desc == Seq::<char>::empty()
            &&& row.flags matches Ok(None) ==> bm.flags == 0
        },
{
}

/// A malformed column degrades to its default and does not fail the row: a
/// row stands for a bookmark exactly if its id was read, and in that bookmark
/// a text column that could not be read is the empty text and flags that
/// could not be read are 0.
pub proof fn lemma_unreadable_columns_default(row: StoredRow)
    ensures
        bookmark_of(row) is Ok <==> row.id is Ok,
        bookmark_of(row) matches Ok(bm) ==> {
            &&& row.url is Err ==> bm.url == Seq::<char>::empty()
            &&& row.metadata is Err ==> bm.metadata == Seq::<char>::empty()
            &&& row.tags is Err ==> bm.tags == Seq::<char>::empty()
            &&& row.desc is Err ==> bm.desc == Seq::<char>::empty()
            &&& row.flags is Err ==> bm.flags == 0
        },
{
}

/// Reading a row and mapping what was read gives the bookmark that the row's
/// columns stand for, and none where they stand for none.
pub proof fn lemma_row_maps_by_position(columns: Seq<ColumnValue>, row: StoredRow)
    requires
        row.is_read_of(columns),
    ensures
        kept(Ok(row)) == bookmark_of_columns(columns),
{
    if has_readable_id(columns) {
        let mapped = bookmark_of(row)->Ok_0;
        let wanted = bookmark_of_columns(columns)->Some_0;
        assert(mapped.url =~= wanted.url);
        assert(mapped.metadata =~= wanted.metadata);
        assert(mapped.tags =~= wanted.tags);
        assert(mapped.desc =~= wanted.desc);
    }
}

/// A row with null columns maps to defaults: a null url, metadata, tags or
/// desc is the empty text in the bookmark, and null flags are 0.
pub proof fn lemma_null_values_default(columns: Seq<ColumnValue>)
    ensures
        bookmark_of_columns(columns) matches Some(bm) ==> {
            &&& columns[1] is Null ==> bm.url == Seq::<char>::empty()
            &&& columns[2] is Null ==> bm.metadata == Seq::<char>::empty()
            &&& columns[3] is Null ==> bm.tags == Seq::<char>::empty()
            &&& columns[4] is Null ==> bm.desc == Seq::<char>::empty()
            &&& columns[5] is Null ==> bm.flags == 0
        },
{
}

/// A fetch never yields more bookmarks than the engine delivered rows.
pub proof fn lemma_surviving_len(items: Seq<Result<StoredRow, Error>>)
    ensures
        surviving(items).len() <= items.len(),
    decreases items.len(),
{
    if items.len() > 0 {
        lemma_surviving_len(items.drop_last());
    }
}

/// Where every row was delivered and has a readable id, a fetch yields one
/// bookmark for each row, in the order of the rows.
pub proof fn lemma_surviving_of_readable_rows(items: Seq<Result<StoredRow, Error>>)
    requires
        forall|i: int| 0 <= i < items.len() ==> kept(#[trigger] items[i]) is Some,
    ensures
        surviving(items).len() == items.len(),
        forall|i: int|
            0 <= i < items.len() ==> Some(#[trigger] surviving(items)[i]) == kept(items[i]),
    decreases items.len(),
{
    if items.len() > 0 {
        let rest = items.drop_last();
        assert forall|i: int| 0 <= i < rest.len() implies kept(#[trigger] rest[i]) is Some by {
            assert(rest[i] == items[i]);
        }
        lemma_surviving_of_readable_rows(rest);
        assert(kept(items.last()) is Some);
        assert forall|i: int| 0 <= i < items.len() implies Some(#[trigger] surviving(items)[i])
            == kept(items[i]) by {
            if i < rest.len() {
                assert(surviving(items)[i] == surviving(rest)[i]);
                assert(rest[i] == items[i]);
            }
        }
    }
}

} // verus!
