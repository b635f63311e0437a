use dzherelo_store::Draft;
use dzherelo_store::Record;
use dzherelo_store::StorageConfig;
use dzherelo_store::Store;
use dzherelo_store::StoreError;

const TEST_DIR: &str = "/tmp";
const DB_FILE: &str = "/tmp/dzherelo.sqlite3";

/// Removes whatever earlier runs left behind the fixed database file, so
/// that each test starts against a fresh store.
fn reset_db() {
    let conn = rusqlite::Connection::open(DB_FILE).unwrap();
    conn.execute_batch("DROP TABLE IF EXISTS persons; DROP INDEX IF EXISTS persons;").unwrap();
}

fn store() -> Store {
    Store::new(StorageConfig { dir: String::from(TEST_DIR) })
}

fn draft(tag: &str) -> Draft {
    Draft {
        last_name: format!("{}-last", tag),
        first_name: format!("{}-first", tag),
        middle_name: format!("{}-middle", tag),
        sex: format!("{}-sex", tag),
        birth_date: format!("{}-birth-date", tag),
        birth_place: format!("{}-birth-place", tag),
        father: format!("{}-father", tag),
        mother: format!("{}-mother", tag),
        residence: format!("{}-residence", tag),
        occupation: format!("{}-occupation", tag),
        legitimacy: format!("{}-legitimacy", tag),
        midwife: format!("{}-midwife", tag),
        godparents: format!("{}-godparents", tag),
        priest: format!("{}-priest", tag),
        notes: format!("{}-notes", tag),
    }
}

fn assert_fields_match(rec: &Record, d: &Draft) {
    assert_eq!(rec.last_name, d.last_name);
    assert_eq!(rec.first_name, d.first_name);
    assert_eq!(rec.middle_name, d.middle_name);
    assert_eq!(rec.sex, d.sex);
    assert_eq!(rec.birth_date, d.birth_date);
    assert_eq!(rec.birth_place, d.birth_place);
    assert_eq!(rec.father, d.father);
    assert_eq!(rec.mother, d.mother);
    assert_eq!(rec.residence, d.residence);
    assert_eq!(rec.occupation, d.occupation);
    assert_eq!(rec.legitimacy, d.legitimacy);
    assert_eq!(rec.midwife, d.midwife);
    assert_eq!(rec.godparents, d.godparents);
    assert_eq!(rec.priest, d.priest);
    assert_eq!(rec.notes, d.notes);
}

#[test]
fn fresh_store_lists_nothing() {
    reset_db();
    let records = store().list_people().unwrap();
    assert_eq!(records.len(), 0);
}

#[test]
fn first_record_has_id_one() {
    reset_db();
    let d = Draft {
        last_name: String::from("Shevchenko"),
        first_name: String::from("Taras"),
        middle_name: String::from("Hryhorovych"),
        sex: String::from("male"),
        birth_date: String::from("1814-03-09"),
        birth_place: String::from("Moryntsi"),
        father: String::from("Hryhoriy Shevchenko"),
        mother: String::from("Kateryna Boiko"),
        residence: String::from("Moryntsi"),
        occupation: String::from("serf"),
        legitimacy: String::from("legitimate"),
        midwife: String::from("unknown"),
        godparents: String::from("Ivan and Olena"),
        priest: String::from("Fr. Oleksiy"),
        notes: String::from("poet"),
    };
    let rec = store().create_person(&d).unwrap();
    assert_eq!(rec.id, 1);
    assert!(!rec.created_at.is_empty());
    assert_fields_match(&rec, &d);
}

#[test]
fn two_creates_list_descending() {
    reset_db();
    let s = store();
    let r1 = s.create_person(&draft("one")).unwrap();
    let r2 = s.create_person(&draft("two")).unwrap();
    assert!(r2.id > r1.id);
    let records = s.list_people().unwrap();
    assert_eq!(records.len(), 2);
    assert_eq!(records[0].id, r2.id);
    assert_eq!(records[1].id, r1.id);
    assert_fields_match(&records[0], &draft("two"));
    assert_fields_match(&records[1], &draft("one"));
}

#[test]
fn ids_strictly_increase() {
    reset_db();
    let s = store();
    let r1 = s.create_person(&draft("a")).unwrap();
    let r2 = s.create_person(&draft("b")).unwrap();
    let r3 = s.create_person(&draft("c")).unwrap();
    assert!(r1.id < r2.id);
    assert!(r2.id < r3.id);
}

#[test]
fn empty_notes_accepted() {
    reset_db();
    let mut d = draft("sparse");
    d.notes = String::new();
    let rec = store().create_person(&d).unwrap();
    assert_eq!(rec.notes, "");
    assert_fields_match(&rec, &d);
}

#[test]
fn round_trip_keeps_fields_exactly() {
    reset_db();
    let mut d = draft("raw");
    d.last_name = String::from("  Шевченко  ");
    d.first_name = String::from("Taras \"Kobzar\"");
    d.notes = String::from("line one\nline two\t'quoted'");
    let s = store();
    let created = s.create_person(&d).unwrap();
    assert_fields_match(&created, &d);
    let records = s.list_people().unwrap();
    assert_eq!(records.len(), 1);
    assert_eq!(records[0].id, created.id);
    assert_eq!(records[0].created_at, created.created_at);
    assert_fields_match(&records[0], &d);
}

#[test]
fn created_at_is_store_assigned() {
    reset_db();
    let d = draft("ts");
    let rec = store().create_person(&d).unwrap();
    assert!(!rec.created_at.is_empty());
    assert_ne!(rec.created_at, d.notes);
}

#[test]
fn schema_init_is_idempotent() {
    reset_db();
    let first = store().create_person(&draft("kept")).unwrap();
    for _ in 0..3 {
        let records = store().list_people().unwrap();
        assert_eq!(records.len(), 1);
        assert_eq!(records[0].id, first.id);
        assert_eq!(records[0].created_at, first.created_at);
        assert_fields_match(&records[0], &draft("kept"));
    }
}

#[test]
fn missing_directory_fails_both_operations() {
    let s = Store::new(StorageConfig { dir: String::from("/tmp/dzherelo-no-such-dir/deeper") });
    let list_err = s.list_people().unwrap_err();
    assert!(matches!(list_err, StoreError::Connection(_)));
    assert!(!list_err.message().is_empty());
    let create_err = s.create_person(&draft("lost")).unwrap_err();
    assert!(matches!(create_err, StoreError::Connection(_)));
    assert!(!create_err.message().is_empty());
    // nothing was persisted anywhere reachable through a working store
    reset_db();
    assert_eq!(store().list_people().unwrap().len(), 0);
}

#[test]
fn conflicting_table_gives_query_error() {
    reset_db();
    let conn = rusqlite::Connection::open(DB_FILE).unwrap();
    conn.execute_batch("CREATE TABLE persons (id INTEGER PRIMARY KEY, other TEXT);").unwrap();
    drop(conn);
    let s = store();
    let list_err = s.list_people().unwrap_err();
    assert!(matches!(list_err, StoreError::Query(_)));
    let create_err = s.create_person(&draft("blocked")).unwrap_err();
    assert!(matches!(create_err, StoreError::Query(_)));
}

#[test]
fn index_name_clash_gives_schema_error() {
    reset_db();
    let conn = rusqlite::Connection::open(DB_FILE).unwrap();
    conn.execute_batch(
        "CREATE TABLE IF NOT EXISTS helper_tbl (c TEXT); \
         CREATE INDEX IF NOT EXISTS persons ON helper_tbl(c);",
    )
    .unwrap();
    drop(conn);
    let err = store().list_people().unwrap_err();
    assert!(matches!(err, StoreError::Schema(_)));
    assert!(!err.message().is_empty());
    let conn = rusqlite::Connection::open(DB_FILE).unwrap();
    conn.execute_batch("DROP INDEX IF EXISTS persons; DROP TABLE IF EXISTS helper_tbl;").unwrap();
}

#[test]
fn location_error_carries_message() {
    let err = StoreError::Location(String::from("app data directory unavailable"));
    assert_eq!(err.message().as_str(), "app data directory unavailable");
}
