use bookmark_store::bookmark::Bookmark;
use bookmark_store::decimal::{append_decimal, append_natural};
use bookmark_store::error::{connect_outcome, query_outcome, write_outcome, StoreError};
use bookmark_store::statement::{
    delete_command, insert_command, select_by_ids, update_command, SqlParam, WriteCommand, DELETE,
    INSERT, READ_SCHEMA, SELECT_ALL, SELECT_BY_IDS_HEAD, SELECT_BY_IDS_TAIL, UPDATE,
};
use rusqlite::Error;

fn decimal(n: i32) -> String {
    let mut out = String::new();
    append_decimal(&mut out, n);
    out
}

fn sample(id: Option<i32>) -> Bookmark {
    Bookmark::new(
        id,
        "http://a".to_string(),
        "A".to_string(),
        "x".to_string(),
        "d".to_string(),
        6,
    )
}

#[test]
fn decimal_text_of_small_numbers() {
    assert_eq!(decimal(0), "0");
    assert_eq!(decimal(7), "7");
    assert_eq!(decimal(9), "9");
    assert_eq!(decimal(10), "10");
    assert_eq!(decimal(11), "11");
    assert_eq!(decimal(100), "100");
    assert_eq!(decimal(1234567890), "1234567890");
}

#[test]
fn decimal_text_of_negative_numbers() {
    assert_eq!(decimal(-1), "-1");
    assert_eq!(decimal(-10), "-10");
    assert_eq!(decimal(-405), "-405");
}

#[test]
fn decimal_text_of_the_extremes() {
    assert_eq!(decimal(i32::MAX), "2147483647");
    assert_eq!(decimal(i32::MIN), "-2147483648");
}

#[test]
fn decimal_text_agrees_with_the_standard_formatting() {
    let mut n: i32 = i32::MIN;
    loop {
        assert_eq!(decimal(n), n.to_string());
        match n.checked_add(7_654_321) {
            Some(next) => n = next,
            None => break,
        }
    }
    for n in -1000..=1000 {
        assert_eq!(decimal(n), n.to_string());
    }
}

#[test]
fn decimal_text_is_appended_to_what_is_there() {
    let mut out = String::from("id = ");
    append_decimal(&mut out, -42);
    assert_eq!(out, "id = -42");
    append_natural(&mut out, 0);
    append_natural(&mut out, u32::MAX);
    assert_eq!(out, "id = -4204294967295");
}

#[test]
fn statement_texts() {
    assert_eq!(READ_SCHEMA, "SELECT name FROM sqlite_master LIMIT 1;");
    assert_eq!(SELECT_ALL, "SELECT * FROM bookmarks;");
    assert_eq!(
        INSERT,
        "INSERT INTO bookmarks(metadata, desc, tags, url, flags) VALUES (?1, ?2, ?3, ?4, ?5);"
    );
    assert_eq!(
        UPDATE,
        "UPDATE bookmarks SET (metadata, desc, tags, url, flags) = (?2, ?3, ?4, ?5, ?6) WHERE id = ?1;"
    );
    assert_eq!(DELETE, "DELETE FROM bookmarks WHERE id = ?1;");
    assert_eq!(SELECT_BY_IDS_HEAD, "SELECT * FROM bookmarks WHERE id IN (");
    assert_eq!(SELECT_BY_IDS_TAIL, ");");
}

#[test]
fn select_by_one_id() {
    assert_eq!(
        select_by_ids(&vec![1]),
        "SELECT * FROM bookmarks WHERE id IN (1);"
    );
}

#[test]
fn select_by_several_ids_keeps_order_and_repeats() {
    assert_eq!(
        select_by_ids(&vec![3, -20, 0, 3, 2147483647, -2147483648]),
        "SELECT * FROM bookmarks WHERE id IN (3, -20, 0, 3, 2147483647, -2147483648);"
    );
}

#[test]
fn select_by_no_ids_has_an_empty_list() {
    assert_eq!(
        select_by_ids(&vec![]),
        "SELECT * FROM bookmarks WHERE id IN ();"
    );
}

#[test]
fn id_list_holds_inert_characters_only() {
    let ids = vec![0, -1, 17, i32::MIN, i32::MAX, 1000, -99999];
    let sql = select_by_ids(&ids);
    let list = &sql[SELECT_BY_IDS_HEAD.len()..sql.len() - SELECT_BY_IDS_TAIL.len()];
    assert!(!list.is_empty());
    assert!(list
        .chars()
        .all(|c| c.is_ascii_digit() || c == '-' || c == ',' || c == ' '));
}

#[test]
fn insert_binds_the_data_columns_and_not_the_id() {
    let bm = sample(Some(31));
    assert_eq!(
        insert_command(&bm),
        WriteCommand {
            sql: INSERT,
            params: vec![
                SqlParam::Text("A"),
                SqlParam::Text("d"),
                SqlParam::Text("x"),
                SqlParam::Text("http://a"),
                SqlParam::Integer(6),
            ],
        }
    );
    let without = sample(None);
    assert_eq!(insert_command(&without).params, insert_command(&bm).params);
}

#[test]
fn update_binds_the_id_first() {
    let bm = sample(Some(-31));
    assert_eq!(
        update_command(&bm),
        Ok(WriteCommand {
            sql: UPDATE,
            params: vec![
                SqlParam::Integer(-31),
                SqlParam::Text("A"),
                SqlParam::Text("d"),
                SqlParam::Text("x"),
                SqlParam::Text("http://a"),
                SqlParam::Integer(6),
            ],
        })
    );
}

#[test]
fn update_has_no_command_without_an_id() {
    assert_eq!(update_command(&sample(None)), Err(StoreError::Precondition));
}

#[test]
fn delete_binds_the_id() {
    assert_eq!(
        delete_command(12),
        WriteCommand {
            sql: DELETE,
            params: vec![SqlParam::Integer(12)],
        }
    );
    assert_eq!(
        delete_command(i32::MIN).params,
        vec![SqlParam::Integer(i32::MIN)]
    );
}

#[test]
fn outcomes_keep_success() {
    assert_eq!(connect_outcome::<u8>(Ok(3)), Ok(3));
    assert_eq!(query_outcome::<&str>(Ok("rows")), Ok("rows"));
    assert_eq!(write_outcome(Ok(0)), Ok(0));
    assert_eq!(write_outcome(Ok(17)), Ok(17));
}

#[test]
fn outcomes_name_the_kind_of_failure() {
    assert_eq!(
        connect_outcome::<u8>(Err(Error::InvalidQuery)),
        Err(StoreError::Connection(Error::InvalidQuery))
    );
    assert_eq!(
        query_outcome::<u8>(Err(Error::QueryReturnedNoRows)),
        Err(StoreError::Query(Error::QueryReturnedNoRows))
    );
    assert_eq!(
        write_outcome(Err(Error::InvalidParameterCount(1, 5))),
        Err(StoreError::Write(Error::InvalidParameterCount(1, 5)))
    );
    assert!(
        StoreError::Write(Error::InvalidQuery) != StoreError::Query(Error::InvalidQuery)
    );
}
