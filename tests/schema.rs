use noematic::schema::{get_version, init_tables, SchemaVersion};
use noematic::HostError;

fn version_rows(c: &rusqlite::Connection) -> Vec<(i64, i64, i64)> {
    let mut statement = c.prepare("SELECT major, minor, patch FROM schema_version ORDER BY id DESC").unwrap();
    let rows = statement.query_map([], |row| Ok((row.get(0)?, row.get(1)?, row.get(2)?))).unwrap();
    rows.map(|r| r.unwrap()).collect()
}

fn record(c: &rusqlite::Connection, major: i64, minor: i64, patch: i64) {
    c.execute(
        "INSERT INTO schema_version (major, minor, patch) VALUES (?1, ?2, ?3)",
        [major, minor, patch],
    )
    .unwrap();
}

#[test]
fn fresh_database_gets_schema_and_one_record() {
    let mut c = rusqlite::Connection::open_in_memory().unwrap();
    assert_eq!(get_version(&c).unwrap(), None);
    init_tables(&mut c).unwrap();
    assert_eq!(version_rows(&c), vec![(0, 1, 0)]);
    assert_eq!(get_version(&c).unwrap(), Some(SchemaVersion::current()));
}

#[test]
fn current_database_is_left_alone() {
    let mut c = rusqlite::Connection::open_in_memory().unwrap();
    init_tables(&mut c).unwrap();
    c.execute("INSERT INTO sites (url, title, inner_text) VALUES ('u', 't', 'x')", []).unwrap();
    init_tables(&mut c).unwrap();
    assert_eq!(version_rows(&c), vec![(0, 1, 0)]);
    let n: i64 = c.query_row("SELECT COUNT(*) FROM sites", [], |row| row.get(0)).unwrap();
    assert_eq!(n, 1);
}

#[test]
fn older_database_records_the_current_version() {
    let mut c = rusqlite::Connection::open_in_memory().unwrap();
    init_tables(&mut c).unwrap();
    record(&c, 0, 0, 9);
    assert_eq!(get_version(&c).unwrap(), Some(SchemaVersion::new(0, 0, 9)));
    init_tables(&mut c).unwrap();
    assert_eq!(version_rows(&c), vec![(0, 1, 0), (0, 0, 9), (0, 1, 0)]);
    assert_eq!(get_version(&c).unwrap(), Some(SchemaVersion::current()));
}

#[test]
fn newer_database_is_refused_unchanged() {
    let mut c = rusqlite::Connection::open_in_memory().unwrap();
    init_tables(&mut c).unwrap();
    record(&c, 0, 2, 0);
    assert!(matches!(init_tables(&mut c), Err(HostError::InvalidSchemaVersion)));
    assert_eq!(version_rows(&c), vec![(0, 2, 0), (0, 1, 0)]);
}

#[test]
fn unreadable_version_is_refused() {
    let mut c = rusqlite::Connection::open_in_memory().unwrap();
    init_tables(&mut c).unwrap();
    record(&c, -1, 0, 0);
    assert!(matches!(get_version(&c), Err(HostError::InvalidSchemaVersion)));
    assert!(matches!(init_tables(&mut c), Err(HostError::InvalidSchemaVersion)));
}

#[test]
fn empty_version_table_reads_as_no_version() {
    let mut c = rusqlite::Connection::open_in_memory().unwrap();
    init_tables(&mut c).unwrap();
    c.execute("DELETE FROM schema_version", []).unwrap();
    assert_eq!(get_version(&c).unwrap(), None);
}

#[test]
fn latest_version_is_the_latest_applied() {
    let mut c = rusqlite::Connection::open_in_memory().unwrap();
    init_tables(&mut c).unwrap();
    c.execute(
        "INSERT INTO schema_version (major, minor, patch, applied_at) VALUES (0, 2, 0, '2000-01-01 00:00:00')",
        [],
    )
    .unwrap();
    assert_eq!(get_version(&c).unwrap(), Some(SchemaVersion::current()));
    init_tables(&mut c).unwrap();
    assert_eq!(version_rows(&c), vec![(0, 2, 0), (0, 1, 0)]);
}

#[test]
fn new_record_is_never_older_than_the_latest() {
    let mut c = rusqlite::Connection::open_in_memory().unwrap();
    init_tables(&mut c).unwrap();
    c.execute(
        "INSERT INTO schema_version (major, minor, patch, applied_at) VALUES (0, 0, 9, '9999-01-01 00:00:00')",
        [],
    )
    .unwrap();
    assert_eq!(get_version(&c).unwrap(), Some(SchemaVersion::new(0, 0, 9)));
    init_tables(&mut c).unwrap();
    assert_eq!(get_version(&c).unwrap(), Some(SchemaVersion::current()));
}
