use kvdb::dbdata::{Reply, Request};
use kvdb::report::{push_decimal, render_statistics};
use kvdb::{DbError, DbMap, Tallies};

fn s(x: &str) -> String {
    x.to_string()
}

#[test]
fn insert_absent_then_get() {
    let mut m = DbMap::new();
    assert_eq!(m.insert(s("k"), s("v")), Ok(()));
    assert_eq!(m.get(s("k")), Ok(s("v")));
    assert_eq!(m.len(), 1);
}

#[test]
fn insert_existing_keeps_value() {
    let mut m = DbMap::new();
    assert_eq!(m.insert(s("k"), s("v")), Ok(()));
    assert_eq!(m.insert(s("k"), s("w")), Err(DbError::InsertKeyExist));
    assert_eq!(m.get(s("k")), Ok(s("v")));
    assert_eq!(m.len(), 1);
}

#[test]
fn update_cases() {
    let mut m = DbMap::new();
    assert_eq!(m.update(s("k"), s("v")), Err(DbError::UpdateKeyNotExist));
    assert_eq!(m.insert(s("k"), s("v")), Ok(()));
    assert_eq!(m.dump_text().map(|t| t.is_some()), Ok(true));
    assert_eq!(m.update(s("k"), s("v")), Err(DbError::UpdateValueMatch));
    assert_eq!(m.dump_text(), Ok(None));
    assert_eq!(m.update(s("k"), s("v2")), Ok(()));
    assert_eq!(m.get(s("k")), Ok(s("v2")));
}

#[test]
fn delete_cases() {
    let mut m = DbMap::new();
    assert_eq!(m.delete(s("k")), Err(DbError::DeleteKeyNotExist));
    assert_eq!(m.insert(s("a"), s("1")), Ok(()));
    assert_eq!(m.insert(s("k"), s("v")), Ok(()));
    assert_eq!(m.insert(s("z"), s("2")), Ok(()));
    assert_eq!(m.delete(s("k")), Ok(()));
    assert_eq!(m.get(s("k")), Err(DbError::GetKeyNotExist));
    assert_eq!(m.get(s("a")), Ok(s("1")));
    assert_eq!(m.get(s("z")), Ok(s("2")));
    assert_eq!(m.len(), 2);
}

#[test]
fn get_absent_key() {
    let m = DbMap::new();
    assert_eq!(m.get(s("nope")), Err(DbError::GetKeyNotExist));
}

#[test]
fn scenario_on_store() {
    let mut m = DbMap::new();
    assert_eq!(m.insert(s("a"), s("1")), Ok(()));
    assert_eq!(m.insert(s("a"), s("2")), Err(DbError::InsertKeyExist));
    assert_eq!(m.update(s("a"), s("1")), Err(DbError::UpdateValueMatch));
    assert_eq!(m.update(s("a"), s("2")), Ok(()));
    assert_eq!(m.get(s("a")), Ok(s("2")));
    assert_eq!(m.delete(s("a")), Ok(()));
    assert_eq!(m.get(s("a")), Err(DbError::GetKeyNotExist));
}

#[test]
fn dump_twice_writes_once() {
    let mut m = DbMap::new();
    assert_eq!(m.dump_text(), Ok(None));
    assert_eq!(m.insert(s("a"), s("1")), Ok(()));
    let first = m.dump_text().unwrap();
    assert!(first.is_some());
    assert_eq!(m.dump_text(), Ok(None));
}

#[test]
fn failed_mutations_leave_store_clean() {
    let mut m = DbMap::new();
    assert_eq!(m.delete(s("a")), Err(DbError::DeleteKeyNotExist));
    assert_eq!(m.update(s("a"), s("1")), Err(DbError::UpdateKeyNotExist));
    assert_eq!(m.dump_text(), Ok(None));
}

#[test]
fn snapshot_text_is_pretty_json() {
    let mut m = DbMap::new();
    assert_eq!(m.insert(s("b"), s("2")), Ok(()));
    assert_eq!(m.insert(s("a"), s("1")), Ok(()));
    let text = m.dump_text().unwrap().unwrap();
    assert_eq!(text, "{\n  \"a\": \"1\",\n  \"b\": \"2\"\n}");
}

#[test]
fn round_trip_empty() {
    let mut m = DbMap::new();
    assert_eq!(m.insert(s("x"), s("y")), Ok(()));
    assert_eq!(m.delete(s("x")), Ok(()));
    let text = m.dump_text().unwrap().unwrap();
    assert_eq!(text, "{}");
    let back = DbMap::load(&text).unwrap();
    assert_eq!(back.len(), 0);
}

#[test]
fn round_trip_unicode_and_whitespace() {
    let pairs = [
        ("key with spaces", "value\twith\ttabs\nand newline"),
        ("ключ", "значение ✓"),
        ("emoji 🦀", "  leading and trailing  "),
        ("", "empty key"),
        ("quote\"back\\slash", ""),
    ];
    let mut m = DbMap::new();
    for (k, v) in pairs.iter() {
        assert_eq!(m.insert(s(k), s(v)), Ok(()));
    }
    let text = m.dump_text().unwrap().unwrap();
    let mut back = DbMap::load(&text).unwrap();
    assert_eq!(back.len(), pairs.len());
    for (k, v) in pairs.iter() {
        assert_eq!(back.get(s(k)), Ok(s(v)));
    }
    assert_eq!(back.dump_text(), Ok(None));
    assert_eq!(back.insert(s("new"), s("n")), Ok(()));
    let again = back.dump_text().unwrap().unwrap();
    let third = DbMap::load(&again).unwrap();
    assert_eq!(third.len(), pairs.len() + 1);
}

#[test]
fn load_rejects_bad_text() {
    assert!(matches!(DbMap::load("not json"), Err(DbError::ParseFailure)));
    assert!(matches!(DbMap::load("{\"a\": 1}"), Err(DbError::ParseFailure)));
    assert!(matches!(DbMap::load("[\"a\"]"), Err(DbError::ParseFailure)));
}

#[test]
fn load_reads_pairs() {
    let m = DbMap::load("{\"a\": \"1\", \"b\": \"two words\"}").unwrap();
    assert_eq!(m.len(), 2);
    assert_eq!(m.get(s("a")), Ok(s("1")));
    assert_eq!(m.get(s("b")), Ok(s("two words")));
}

#[test]
fn decimal_digits() {
    let mut t = String::from("n=");
    push_decimal(&mut t, 0);
    assert_eq!(t, "n=0");
    let mut t = String::new();
    push_decimal(&mut t, 10);
    assert_eq!(t, "10");
    let mut t = String::new();
    push_decimal(&mut t, 4294967295);
    assert_eq!(t, "4294967295");
    let mut t = String::new();
    push_decimal(&mut t, u64::MAX);
    assert_eq!(t, "18446744073709551615");
}

#[test]
fn statistics_text_exact() {
    let t = Tallies {
        inserts_successful: 3,
        inserts_failed: 1,
        updates_successful: 0,
        updates_failed: 12,
        deletes_successful: 7,
        deletes_failed: 0,
        gets_successful: 105,
        gets_failed: 9,
    };
    assert_eq!(
        render_statistics(42, &t),
        "\nThe number of records in database: 42\n\
INSERT operations: 3 successful / 1 unsuccessful\n\
UPDATE operations: 0 successful / 12 unsuccessful\n\
DELETE operations: 7 successful / 0 unsuccessful\n\
GET operations: 105 successful / 9 unsuccessful\n"
    );
}

#[test]
fn mark_modified_keeps_records() {
    let mut m = DbMap::new();
    m.mark_modified();
    assert_eq!(m.dump_text(), Ok(Some(s("{}"))));
    assert_eq!(m.insert(s("k"), s("v")), Ok(()));
    assert_eq!(m.flush_text(), Ok(s("{\n  \"k\": \"v\"\n}")));
    assert_eq!(m.dump_text(), Ok(None));
    m.mark_modified();
    assert_eq!(m.get(s("k")), Ok(s("v")));
    assert_eq!(m.dump_text(), Ok(Some(s("{\n  \"k\": \"v\"\n}"))));
}

#[test]
fn serve_answers_each_request() {
    let mut m = DbMap::new();
    assert!(matches!(m.serve(Request::Insert(s("a"), s("1"))), Reply::Status(Ok(()))));
    assert!(matches!(m.serve(Request::Update(s("a"), s("1"))), Reply::Status(Err(DbError::UpdateValueMatch))));
    assert!(matches!(m.serve(Request::Get(s("a"))), Reply::Value(Ok(ref v)) if v == "1"));
    assert!(matches!(m.serve(Request::Count), Reply::Records(1)));
    assert!(matches!(m.serve(Request::Dump), Reply::Snapshot(Ok(Some(_)))));
    assert!(matches!(m.serve(Request::Dump), Reply::Snapshot(Ok(None))));
    assert!(matches!(m.serve(Request::Flush), Reply::Flushed(Ok(_))));
    assert!(matches!(m.serve(Request::MarkModified), Reply::Status(Ok(()))));
    assert!(matches!(m.serve(Request::Delete(s("a"))), Reply::Status(Ok(()))));
    assert!(matches!(m.serve(Request::Delete(s("a"))), Reply::Status(Err(DbError::DeleteKeyNotExist))));
}
