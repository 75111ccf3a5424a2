//! The SQL statements the store sends to the engine, and the values bound to
//! their placeholders.

use vstd::prelude::*;
use vstd::string::StringExecFns;
use crate::bookmark::{Bookmark, BookmarkId, BookmarkView};
use crate::decimal::{append_decimal, decimal_text, is_digit, lemma_natural_text_digits, natural_text};
use crate::error::StoreError;

verus! {

/// A value bound to one placeholder of a statement.
#[derive(Debug, Clone, Copy, PartialEq, Eq)]
pub enum SqlParam<'a> {
    Integer(i32),
    Text(&'a str),
}

/// The mathematical value of a bound parameter.
pub enum SqlParamView {
    Integer(i32),
    Text(Seq<char>),
}

impl<'a> View for SqlParam<'a> {
    type V = SqlParamView;

    open spec fn view(&self) -> SqlParamView {
        match *self {
            SqlParam::Integer(n) => SqlParamView::Integer(n),
            SqlParam::Text(s) => SqlParamView::Text(s@),
        }
    }
}

/// A statement that changes the table, with the values for its placeholders
/// in placeholder order.
#[derive(Debug, PartialEq, Eq)]
pub struct WriteCommand<'a> {
    pub sql: &'static str,
    pub params: Vec<SqlParam<'a>>,
}

/// The mathematical value of a write command.
pub struct WriteCommandView {
    pub sql: Seq<char>,
    pub params: Seq<SqlParamView>,
}

impl<'a> View for WriteCommand<'a> {
    type V = WriteCommandView;

    open spec fn view(&self) -> WriteCommandView {
        WriteCommandView { sql: self.sql@, params: self.params@.map_values(|p: SqlParam<'a>| p@) }
    }
}

/// Selects from the engine's own table of the schema. The engine can
/// compile this for every database, whatever tables it has, and for no file
/// that is not a database.
pub const READ_SCHEMA: &'static str = "SELECT name FROM sqlite_master LIMIT 1;";

/// Selects every row of the table.
pub const SELECT_ALL: &'static str = "SELECT * FROM bookmarks;";

/// Inserts one row; the id is left to the engine.
pub const INSERT: &'static str =
    "INSERT INTO bookmarks(metadata, desc, tags, url, flags) VALUES (?1, ?2, ?3, ?4, ?5);";

/// Overwrites every column but the id of the row with the id `?1`.
pub const UPDATE: &'static str =
    "UPDATE bookmarks SET (metadata, desc, tags, url, flags) = (?2, ?3, ?4, ?5, ?6) WHERE id = ?1;";

/// Deletes the row with the id `?1`.
pub const DELETE: &'static str = "DELETE FROM bookmarks WHERE id = ?1;";

/// The head of the statement that selects rows by id, up to the list of ids.
pub const SELECT_BY_IDS_HEAD: &'static str = "SELECT * FROM bookmarks WHERE id IN (";

/// The tail of the statement that selects rows by id, after the list of ids.
pub const SELECT_BY_IDS_TAIL: &'static str = ");";

/// The insert of a bookmark's five data columns.
pub open spec fn insert_of(bm: BookmarkView) -> WriteCommandView {
    WriteCommandView {
        sql: INSERT@,
        params: seq![
            SqlParamView::Text(bm.metadata),
            SqlParamView::Text(bm.desc),
            SqlParamView::Text(bm.tags),
            SqlParamView::Text(bm.url),
            SqlParamView::Integer(bm.flags),
        ],
    }
}

/// The update of the row `id` to a bookmark's five data columns.
pub open spec fn update_of(bm: BookmarkView, id: BookmarkId) -> WriteCommandView {
    WriteCommandView {
        sql: UPDATE@,
        params: seq![
            SqlParamView::Integer(id),
            SqlParamView::Text(bm.metadata),
            SqlParamView::Text(bm.desc),
            SqlParamView::Text(bm.tags),
            SqlParamView::Text(bm.url),
            SqlParamView::Integer(bm.flags),
        ],
    }
}

/// The delete of the row `id`.
pub open spec fn delete_of(id: BookmarkId) -> WriteCommandView {
    WriteCommandView { sql: DELETE@, params: seq![SqlParamView::Integer(id)] }
}

/// The ids of a lookup as they stand between the brackets of `IN (...)`: the
/// decimal text of each, in order, separated by a comma and a space.
pub open spec fn id_list_text(ids: Seq<BookmarkId>) -> Seq<char>
    decreases ids.len(),
{
    if ids.len() == 0 {
        Seq::empty()
    } else if ids.len() == 1 {
        decimal_text(ids[0] as int)
    } else {
        id_list_text(ids.drop_last()) + seq![',', ' '] + decimal_text(ids.last() as int)
    }
}

/// The statement that selects the rows whose id is one of `ids`.
pub open spec fn select_by_ids_text(ids: Seq<BookmarkId>) -> Seq<char> {
    SELECT_BY_IDS_HEAD@ + id_list_text(ids) + SELECT_BY_IDS_TAIL@
}

/// Whether a character can occur in a list of ids: a digit, a minus sign, a
/// comma or a space.
pub open spec fn is_id_list_char(c: char) -> bool {
    is_digit(c) || c == '-' || c == ',' || c == ' '
}

/// The insert of a bookmark's five data columns. The bookmark's own id plays
/// no part.
pub fn insert_command<'a>(bm: &'a Bookmark) -> (command: WriteCommand<'a>)
    ensures
        command@ == insert_of(bm@),
{
    let mut params: Vec<SqlParam<'a>> = Vec::new();
    params.push(SqlParam::Text(bm.metadata.as_str()));
    params.push(SqlParam::Text(bm.desc.as_str()));
    params.push(SqlParam::Text(bm.tags.as_str()));
    params.push(SqlParam::Text(bm.url.as_str()));
    params.push(SqlParam::Integer(bm.flags));
    let command = WriteCommand { sql: INSERT, params };
    assert(command@.params =~= insert_of(bm@).params);
    command
}

/// The update of the row that a bookmark names. A bookmark without an id
/// names no row: there is no command for it.
pub fn update_command<'a>(bm: &'a Bookmark) -> (r: Result<WriteCommand<'a>, StoreError>)
    ensures
        bm@.id is None ==> r matches Err(StoreError::Precondition),
        bm@.id matches Some(id) ==> (r matches Ok(command) && command@ == update_of(bm@, id)),
{
    match bm.id {
        None => Err(StoreError::Precondition),
        Some(id) => {
            let mut params: Vec<SqlParam<'a>> = Vec::new();
            params.push(SqlParam::Integer(id));
            params.push(SqlParam::Text(bm.metadata.as_str()));
            params.push(SqlParam::Text(bm.desc.as_str()));
            params.push(SqlParam::Text(bm.tags.as_str()));
            params.push(SqlParam::Text(bm.url.as_str()));
            params.push(SqlParam::Integer(bm.flags));
            let command = WriteCommand { sql: UPDATE, params };
            assert(command@.params =~= update_of(bm@, id).params);
            Ok(command)
        },
    }
}

/// The delete of the row `id`.
pub fn delete_command(id: BookmarkId) -> (command: WriteCommand<'static>)
    ensures
        command@ == delete_of(id),
{
    let mut params: Vec<SqlParam<'static>> = Vec::new();
    params.push(SqlParam::Integer(id));
    let command = WriteCommand { sql: DELETE, params };
    assert(command@.params =~= delete_of(id).params);
    command
}

/// The text of the statement that selects the rows whose id is one of `ids`.
pub fn select_by_ids(ids: &Vec<BookmarkId>) -> (sql: String)
    ensures
        sql@ == select_by_ids_text(ids@),
{
    let mut sql = String::from_str(SELECT_BY_IDS_HEAD);
    let mut i: usize = 0;
    while i < ids.len()
        invariant
            i <= ids.len(),
            sql@ == SELECT_BY_IDS_HEAD@ + id_list_text(ids@.take(i as int)),
        decreases ids.len() - i,
    {
        if i > 0 {
            proof {
                reveal_strlit(", ");
            }
            sql.append(", ");
        }
        append_decimal(&mut sql, ids[i]);
        proof {
            let next = ids@.take(i + 1);
            assert(next.drop_last() =~= ids@.take(i as int));
            assert(next.last() == ids@[i as int]);
            assert(", "@ =~= seq![',', ' ']) by {
                reveal_strlit(", ");
            }
            assert(sql@ =~= SELECT_BY_IDS_HEAD@ + id_list_text(next));
        }
        i += 1;
    }
    assert(ids@.take(i as int) =~= ids@);
    sql.append(SELECT_BY_IDS_TAIL);
    sql
}

/// Whatever ids are looked up, the list spliced into the statement holds
/// digits, minus signs, commas and spaces only: no id can close the bracket,
/// open a string or start another statement.
pub proof fn lemma_id_list_is_inert(ids: Seq<BookmarkId>)
    ensures
        forall|i: int|
            0 <= i < id_list_text(ids).len() ==> is_id_list_char(#[trigger] id_list_text(ids)[i]),
    decreases ids.len(),
{
    if ids.len() > 0 {
        let last = ids.last() as int;
        let tail = decimal_text(last);
        let magnitude = (if last < 0 { -last } else { last }) as nat;
        lemma_natural_text_digits(magnitude);
        assert forall|i: int| 0 <= i < tail.len() implies is_id_list_char(#[trigger] tail[i]) by {
            if last < 0 && i > 0 {
                assert(tail[i] == natural_text(magnitude)[i - 1]);
            }
        }
        if ids.len() == 1 {
            assert(ids[0] == ids.last());
        } else {
            let head = id_list_text(ids.drop_last());
            lemma_id_list_is_inert(ids.drop_last());
            let text = id_list_text(ids);
            assert(text == head + seq![',', ' '] + tail);
            assert forall|i: int| 0 <= i < text.len() implies is_id_list_char(#[trigger] text[i]) by {
                if i < head.len() {
                    assert(text[i] == head[i]);
                } else if i < head.len() + 2 {
                    assert(text[i] == seq![',', ' '][i - head.len()]);
                } else {
                    assert(text[i] == tail[i - head.len() - 2]);
                }
            }
        }
    }
}

} // verus!
