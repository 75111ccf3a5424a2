use bookmark_store::bookmark::Bookmark;
use bookmark_store::database::{bookmarks_from_rows, SqliteDatabase};
use bookmark_store::row::{integer_or_default, text_or_default, StoredRow};
use rusqlite::types::Type;
use rusqlite::Error;

fn text(s: &str) -> Result<Option<String>, Error> {
    Ok(Some(s.to_string()))
}

fn wrong_type(idx: usize, name: &str) -> Error {
    Error::InvalidColumnType(idx, name.to_string(), Type::Blob)
}

fn full_row(id: i32, url: &str) -> StoredRow {
    StoredRow {
        id: Ok(Some(id)),
        url: text(url),
        metadata: text("title"),
        tags: text(",a,"),
        desc: text("about"),
        flags: Ok(Some(12)),
    }
}

fn bookmark(id: Option<i32>, url: &str, metadata: &str, tags: &str, desc: &str, flags: i32) -> Bookmark {
    Bookmark::new(
        id,
        url.to_string(),
        metadata.to_string(),
        tags.to_string(),
        desc.to_string(),
        flags,
    )
}

#[test]
fn row_with_every_column_maps_field_by_field() {
    let mapped = SqliteDatabase::map_db_bookmark(full_row(9, "http://a"));
    assert_eq!(mapped, Ok(bookmark(Some(9), "http://a", "title", ",a,", "about", 12)));
}

#[test]
fn row_with_null_columns_maps_to_defaults() {
    let row = StoredRow {
        id: Ok(Some(1)),
        url: Ok(None),
        metadata: Ok(None),
        tags: Ok(None),
        desc: Ok(None),
        flags: Ok(None),
    };
    assert_eq!(
        SqliteDatabase::map_db_bookmark(row),
        Ok(bookmark(Some(1), "", "", "", "", 0))
    );
}

#[test]
fn row_with_unreadable_columns_maps_to_defaults() {
    let row = StoredRow {
        id: Ok(Some(1)),
        url: Err(wrong_type(1, "url")),
        metadata: text("kept"),
        tags: Err(Error::InvalidColumnIndex(3)),
        desc: Err(wrong_type(4, "desc")),
        flags: Err(Error::IntegralValueOutOfRange(5, 1 << 40)),
    };
    assert_eq!(
        SqliteDatabase::map_db_bookmark(row),
        Ok(bookmark(Some(1), "", "kept", "", "", 0))
    );
}

#[test]
fn row_with_null_id_maps_to_absent_id() {
    let mut row = full_row(0, "u");
    row.id = Ok(None);
    assert_eq!(
        SqliteDatabase::map_db_bookmark(row),
        Ok(bookmark(None, "u", "title", ",a,", "about", 12))
    );
}

#[test]
fn row_with_unreadable_id_fails_with_that_error() {
    let mut row = full_row(0, "u");
    row.id = Err(Error::IntegralValueOutOfRange(0, 5_000_000_000));
    assert_eq!(
        SqliteDatabase::map_db_bookmark(row),
        Err(Error::IntegralValueOutOfRange(0, 5_000_000_000))
    );
}

#[test]
fn row_keeps_negative_and_extreme_integers() {
    let mut row = full_row(i32::MIN, "u");
    row.flags = Ok(Some(i32::MAX));
    let mapped = SqliteDatabase::map_db_bookmark(row).unwrap();
    assert_eq!(mapped.id, Some(i32::MIN));
    assert_eq!(mapped.flags(), i32::MAX);
}

#[test]
fn column_defaults() {
    assert_eq!(text_or_default(text("stored")), "stored");
    assert_eq!(text_or_default(text("")), "");
    assert_eq!(text_or_default(Ok(None)), "");
    assert_eq!(text_or_default(Err(Error::InvalidColumnIndex(1))), "");
    assert_eq!(integer_or_default(Ok(Some(-3))), -3);
    assert_eq!(integer_or_default(Ok(None)), 0);
    assert_eq!(integer_or_default(Err(Error::InvalidColumnIndex(5))), 0);
}

#[test]
fn no_rows_give_no_bookmarks() {
    assert_eq!(bookmarks_from_rows(vec![]), Vec::<Bookmark>::new());
}

#[test]
fn readable_rows_are_all_kept_in_order() {
    let fetched = vec![
        Ok(full_row(3, "three")),
        Ok(full_row(1, "one")),
        Ok(full_row(2, "two")),
    ];
    let urls: Vec<String> = bookmarks_from_rows(fetched)
        .into_iter()
        .map(|bm| bm.url)
        .collect();
    assert_eq!(urls, vec!["three", "one", "two"]);
}

#[test]
fn failed_rows_are_dropped_and_the_rest_keep_their_order() {
    let mut no_id = full_row(0, "no id");
    no_id.id = Err(wrong_type(0, "id"));
    let mut null_id = full_row(0, "null id");
    null_id.id = Ok(None);
    let fetched = vec![
        Err(Error::QueryReturnedNoRows),
        Ok(full_row(5, "five")),
        Ok(no_id),
        Ok(null_id),
        Err(Error::InvalidQuery),
        Ok(full_row(4, "four")),
    ];
    let kept = bookmarks_from_rows(fetched);
    assert_eq!(
        kept,
        vec![
            bookmark(Some(5), "five", "title", ",a,", "about", 12),
            bookmark(None, "null id", "title", ",a,", "about", 12),
            bookmark(Some(4), "four", "title", ",a,", "about", 12),
        ]
    );
}

#[test]
fn only_failed_rows_give_no_bookmarks() {
    let mut no_id = full_row(0, "no id");
    no_id.id = Err(Error::InvalidColumnIndex(0));
    let fetched = vec![Ok(no_id), Err(Error::InvalidQuery)];
    assert_eq!(bookmarks_from_rows(fetched), Vec::<Bookmark>::new());
}
