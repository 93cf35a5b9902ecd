use sqlite_rw_pool::migration::MigrationSource;
use sqlite_rw_pool::run_migrations;
use sqlite_rw_pool::MigrationConfig;
use sqlite_rw_pool::MigrationError;

fn source(name: &str, content: &str) -> MigrationSource {
    MigrationSource { name: name.to_string(), content: content.to_string() }
}

fn reversible_set() -> Vec<MigrationSource> {
    vec![
        source("1_animals.up.sql", "CREATE TABLE animals(name TEXT);"),
        source("1_animals.down.sql", "DROP TABLE animals;"),
        source("2_food.up.sql", "CREATE TABLE food(name TEXT);"),
        source("2_food.down.sql", "DROP TABLE food;"),
        source("3_toys.up.sql", "CREATE TABLE toys(name TEXT);"),
        source("3_toys.down.sql", "DROP TABLE toys;"),
    ]
}

fn schema_version(conn: &rusqlite::Connection) -> i64 {
    conn.query_row("PRAGMA user_version", [], |row| row.get(0)).unwrap()
}

fn table_exists(conn: &rusqlite::Connection, name: &str) -> bool {
    let n: i64 = conn
        .query_row(
            "SELECT COUNT(*) FROM sqlite_master WHERE type = 'table' AND name = ?",
            [name],
            |row| row.get(0),
        )
        .unwrap();
    n == 1
}

#[test]
fn applies_simple_and_reversible_in_order() {
    let mut conn = rusqlite::Connection::open_in_memory().unwrap();
    let sources = vec![
        source("1_init.sql", "CREATE TABLE a(x INTEGER);"),
        source("2_add.up.sql", "CREATE TABLE b(y INTEGER);"),
        source("2_add.down.sql", "DROP TABLE b;"),
    ];
    let config = MigrationConfig { to: None, first_to: None };
    run_migrations(&config, &sources, &mut conn).unwrap();
    assert_eq!(schema_version(&conn), 2);
    assert!(table_exists(&conn, "a"));
    assert!(table_exists(&conn, "b"));
}

#[test]
fn first_to_rolls_back_then_default_reaches_latest() {
    let mut conn = rusqlite::Connection::open_in_memory().unwrap();
    let sources = reversible_set();

    // Bring the database all the way up first.
    let config = MigrationConfig { to: None, first_to: None };
    run_migrations(&config, &sources, &mut conn).unwrap();
    assert_eq!(schema_version(&conn), 3);

    // Now roll back to version 1 first, then follow the default to latest.
    let config = MigrationConfig { to: None, first_to: Some(1) };
    run_migrations(&config, &sources, &mut conn).unwrap();
    assert_eq!(schema_version(&conn), 3);
    assert!(table_exists(&conn, "animals"));
    assert!(table_exists(&conn, "food"));
    assert!(table_exists(&conn, "toys"));
}

#[test]
fn first_to_alone_leaves_database_at_that_version() {
    let mut conn = rusqlite::Connection::open_in_memory().unwrap();
    let sources = reversible_set();
    let config = MigrationConfig { to: None, first_to: None };
    run_migrations(&config, &sources, &mut conn).unwrap();

    // An explicit target below the current version rolls back and stays.
    let config = MigrationConfig { to: Some(1), first_to: None };
    run_migrations(&config, &sources, &mut conn).unwrap();
    assert_eq!(schema_version(&conn), 1);
    assert!(table_exists(&conn, "animals"));
    assert!(!table_exists(&conn, "food"));
}

#[test]
fn version_gap_fails_before_touching_database() {
    let mut conn = rusqlite::Connection::open_in_memory().unwrap();
    let sources = vec![
        source("1_init.sql", "CREATE TABLE a(x INTEGER);"),
        source("3_skip.sql", "CREATE TABLE c(z INTEGER);"),
    ];
    let config = MigrationConfig { to: None, first_to: None };
    let err = run_migrations(&config, &sources, &mut conn).unwrap_err();
    assert_eq!(err, MigrationError::WrongVersionNumber(2, 3));
    assert_eq!(schema_version(&conn), 0);
    assert!(!table_exists(&conn, "a"));
}

#[test]
fn broken_script_surfaces_apply_error() {
    let mut conn = rusqlite::Connection::open_in_memory().unwrap();
    let sources = vec![source("1_bad.sql", "THIS IS NOT SQL;")];
    let config = MigrationConfig { to: None, first_to: None };
    let err = run_migrations(&config, &sources, &mut conn).unwrap_err();
    assert!(matches!(err, MigrationError::RusqliteMigration(_)));
}

#[test]
fn no_sources_is_a_successful_no_op() {
    let mut conn = rusqlite::Connection::open_in_memory().unwrap();
    let sources: Vec<MigrationSource> = vec![];
    let config = MigrationConfig { to: None, first_to: None };
    run_migrations(&config, &sources, &mut conn).unwrap();
    assert_eq!(schema_version(&conn), 0);
}

#[test]
fn explicit_target_wins_over_latest() {
    let mut conn = rusqlite::Connection::open_in_memory().unwrap();
    let sources = reversible_set();
    let config = MigrationConfig { to: Some(2), first_to: None };
    run_migrations(&config, &sources, &mut conn).unwrap();
    assert_eq!(schema_version(&conn), 2);
    assert!(table_exists(&conn, "food"));
    assert!(!table_exists(&conn, "toys"));
}

#[test]
fn up_to_date_database_is_left_alone() {
    let mut conn = rusqlite::Connection::open_in_memory().unwrap();
    let sources = vec![source("1_init.sql", "CREATE TABLE a(x INTEGER);")];
    let config = MigrationConfig { to: None, first_to: None };
    run_migrations(&config, &sources, &mut conn).unwrap();
    assert_eq!(schema_version(&conn), 1);
    run_migrations(&config, &sources, &mut conn).unwrap();
    assert_eq!(schema_version(&conn), 1);
}
