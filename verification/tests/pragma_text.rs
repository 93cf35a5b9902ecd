use sqlite_rw_pool::pragmas::auto_vacuum;
use sqlite_rw_pool::pragmas::foreign_keys;
use sqlite_rw_pool::pragmas::journal_mode;
use sqlite_rw_pool::pragmas::locking_mode;
use sqlite_rw_pool::pragmas::page_size;
use sqlite_rw_pool::pragmas::synchronous;
use sqlite_rw_pool::text::usize_to_decimal;
use sqlite_rw_pool::Pragmas;

#[test]
fn default_pragma_values() {
    assert_eq!(page_size(), 4096);
    assert_eq!(locking_mode(), "NORMAL");
    assert_eq!(journal_mode(), "WAL");
    assert_eq!(foreign_keys(), "ON");
    assert_eq!(synchronous(), "NORMAL");
    assert_eq!(auto_vacuum(), "NONE");
}

#[test]
fn decimal_rendering() {
    assert_eq!(usize_to_decimal(0), "0");
    assert_eq!(usize_to_decimal(7), "7");
    assert_eq!(usize_to_decimal(10), "10");
    assert_eq!(usize_to_decimal(4096), "4096");
    assert_eq!(usize_to_decimal(1234567890), "1234567890");
}

#[test]
fn decimal_rendering_matches_std_formatting() {
    for n in [0usize, 1, 9, 10, 99, 100, 65535, usize::MAX / 7, usize::MAX] {
        assert_eq!(usize_to_decimal(n), format!("{n}"));
    }
}

#[test]
fn default_pragma_batch_text() {
    let p = Pragmas::default();
    let expected = "\nPRAGMA page_size = 4096;\nPRAGMA locking_mode = NORMAL;\nPRAGMA journal_mode = WAL;\nPRAGMA foreign_keys = ON;\nPRAGMA synchronous = NORMAL;\nPRAGMA auto_vacuum = NONE;\n";
    assert_eq!(p.sql(), expected);
}

#[test]
fn extra_pragmas_follow_the_fixed_ones_in_order() {
    let mut p = Pragmas::default();
    p.pragmas.push(("cache_size".to_string(), "-2000".to_string()));
    p.pragmas.push(("temp_store".to_string(), "MEMORY".to_string()));
    let sql = p.sql();
    assert!(sql.ends_with("PRAGMA cache_size = -2000;\nPRAGMA temp_store = MEMORY;\n"));
}

#[test]
fn set_applies_pragmas_to_a_connection() {
    let conn = rusqlite::Connection::open_in_memory().unwrap();
    let p = Pragmas::default();
    p.set(&conn).unwrap();
    let fk: i64 = conn.query_row("PRAGMA foreign_keys", [], |r| r.get(0)).unwrap();
    assert_eq!(fk, 1);
    let ps: i64 = conn.query_row("PRAGMA page_size", [], |r| r.get(0)).unwrap();
    assert_eq!(ps, 4096);
}

#[test]
fn set_reports_engine_errors() {
    let conn = rusqlite::Connection::open_in_memory().unwrap();
    let mut p = Pragmas::default();
    // A malformed pragma value makes the batch unparsable.
    p.pragmas.push(("oops".to_string(), "'unterminated".to_string()));
    let err = p.set(&conn).unwrap_err();
    assert!(matches!(err, sqlite_rw_pool::Error::Rusqlite(_)));
}
