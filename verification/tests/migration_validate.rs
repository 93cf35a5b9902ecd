use sqlite_rw_pool::migration::find_content;
use sqlite_rw_pool::migration::parse_migration_name;
use sqlite_rw_pool::migration::parse_sources;
use sqlite_rw_pool::migration::resolve_scripts;
use sqlite_rw_pool::migration::validate_sources;
use sqlite_rw_pool::migration::MigrationScript;
use sqlite_rw_pool::migration::MigrationSource;
use sqlite_rw_pool::migration::MigrationSourceType;
use sqlite_rw_pool::MigrationError;

fn source(name: &str, content: &str) -> MigrationSource {
    MigrationSource { name: name.to_string(), content: content.to_string() }
}

#[test]
fn extension_of_each_type() {
    assert_eq!(MigrationSourceType::Simple.extension(), ".sql");
    assert_eq!(MigrationSourceType::Up.extension(), ".up.sql");
    assert_eq!(MigrationSourceType::Down.extension(), ".down.sql");
}

#[test]
fn parse_simple_name() {
    assert_eq!(
        parse_migration_name("1_init.sql"),
        Some((MigrationSourceType::Simple, 1))
    );
}

#[test]
fn parse_up_and_down_names() {
    assert_eq!(
        parse_migration_name("2_add_col.up.sql"),
        Some((MigrationSourceType::Up, 2))
    );
    assert_eq!(
        parse_migration_name("2_add_col.down.sql"),
        Some((MigrationSourceType::Down, 2))
    );
}

#[test]
fn parse_rejects_bad_names() {
    // No underscore.
    assert_eq!(parse_migration_name("1init.sql"), None);
    // Empty version prefix.
    assert_eq!(parse_migration_name("_init.sql"), None);
    // Non-digit version prefix.
    assert_eq!(parse_migration_name("x_init.sql"), None);
    assert_eq!(parse_migration_name("+1_init.sql"), None);
    // Wrong or missing extension.
    assert_eq!(parse_migration_name("1_init.txt"), None);
    assert_eq!(parse_migration_name("1_init"), None);
    // Uppercase suffix is not matched.
    assert_eq!(parse_migration_name("1_init.SQL"), None);
    // A remainder that is exactly the extension has no file stem.
    assert_eq!(parse_migration_name("1_.sql"), None);
    // Version too large for the machine word.
    assert_eq!(parse_migration_name("99999999999999999999999999_x.sql"), None);
}

#[test]
fn parse_keeps_version_zero_and_large_versions() {
    assert_eq!(
        parse_migration_name("0_zero.sql"),
        Some((MigrationSourceType::Simple, 0))
    );
    assert_eq!(
        parse_migration_name("10_ten.sql"),
        Some((MigrationSourceType::Simple, 10))
    );
}

#[test]
fn validate_simple_and_reversible_set() {
    let sources = vec![
        source("1_init.sql", "CREATE TABLE a(x);"),
        source("2_add_col.up.sql", "ALTER TABLE a ADD COLUMN y;"),
        source("2_add_col.down.sql", "ALTER TABLE a DROP COLUMN y;"),
    ];
    let entries = parse_sources(&sources);
    let scripts = validate_sources(&entries).unwrap();
    assert_eq!(scripts.len(), 2);
    match &scripts[0] {
        MigrationScript::Simple(n) => assert_eq!(n, "1_init.sql"),
        _ => panic!("first version must be simple"),
    }
    match &scripts[1] {
        MigrationScript::Reversible(u, d) => {
            assert_eq!(u, "2_add_col.up.sql");
            assert_eq!(d, "2_add_col.down.sql");
        }
        _ => panic!("second version must be reversible"),
    }
}

#[test]
fn validate_reports_version_gap() {
    let sources = vec![
        source("1_init.sql", "CREATE TABLE a(x);"),
        source("3_skip.sql", "CREATE TABLE b(x);"),
    ];
    let entries = parse_sources(&sources);
    let err = validate_sources(&entries).unwrap_err();
    assert_eq!(err, MigrationError::WrongVersionNumber(2, 3));
}

#[test]
fn validate_reports_missing_first_version() {
    let sources = vec![source("2_later.sql", "CREATE TABLE a(x);")];
    let entries = parse_sources(&sources);
    let err = validate_sources(&entries).unwrap_err();
    assert_eq!(err, MigrationError::WrongVersionNumber(1, 2));
}

#[test]
fn validate_reports_version_zero() {
    let sources = vec![source("0_zero.sql", "CREATE TABLE a(x);")];
    let entries = parse_sources(&sources);
    let err = validate_sources(&entries).unwrap_err();
    assert_eq!(err, MigrationError::WrongVersionNumber(1, 0));
}

#[test]
fn validate_reports_wrong_type_for_single() {
    let sources = vec![source("1_init.up.sql", "CREATE TABLE a(x);")];
    let entries = parse_sources(&sources);
    let err = validate_sources(&entries).unwrap_err();
    assert_eq!(
        err,
        MigrationError::WrongTypeForSingleMigration("1_init.up.sql".to_string())
    );
}

#[test]
fn validate_reports_missing_up() {
    let sources = vec![
        source("1_init.sql", "CREATE TABLE a(x);"),
        source("2_a.sql", "x"),
        source("2_b.down.sql", "y"),
    ];
    let entries = parse_sources(&sources);
    let err = validate_sources(&entries).unwrap_err();
    assert_eq!(
        err,
        MigrationError::ReversibleMigrationMissingUp("2_a.sql".to_string())
    );
}

#[test]
fn validate_reports_missing_down() {
    let sources = vec![
        source("1_a.up.sql", "x"),
        source("1_b.up.sql", "y"),
    ];
    let entries = parse_sources(&sources);
    let err = validate_sources(&entries).unwrap_err();
    assert_eq!(
        err,
        MigrationError::ReversibleMigrationMissingDown("1_b.up.sql".to_string())
    );
}

#[test]
fn validate_reports_too_many() {
    let sources = vec![
        source("1_a.sql", "x"),
        source("1_b.up.sql", "y"),
        source("1_c.down.sql", "z"),
    ];
    let entries = parse_sources(&sources);
    let err = validate_sources(&entries).unwrap_err();
    assert_eq!(err, MigrationError::TooManyMigrationsForVersion(1, 3));
}

#[test]
fn validate_ignores_unparsed_names() {
    let sources = vec![
        source("README.md", "not a migration"),
        source("1_init.sql", "CREATE TABLE a(x);"),
    ];
    let entries = parse_sources(&sources);
    let scripts = validate_sources(&entries).unwrap();
    assert_eq!(scripts.len(), 1);
}

#[test]
fn find_content_resolves_first_match() {
    let sources = vec![source("1_init.sql", "CREATE TABLE a(x);")];
    assert_eq!(
        find_content(&sources, &"1_init.sql".to_string()),
        Some("CREATE TABLE a(x);".to_string())
    );
    assert_eq!(find_content(&sources, &"2_other.sql".to_string()), None);
}

#[test]
fn resolve_replaces_names_by_contents() {
    let sources = vec![
        source("1_init.sql", "CREATE TABLE a(x);"),
        source("2_c.up.sql", "up sql"),
        source("2_c.down.sql", "down sql"),
    ];
    let scripts = vec![
        MigrationScript::Simple("1_init.sql".to_string()),
        MigrationScript::Reversible("2_c.up.sql".to_string(), "2_c.down.sql".to_string()),
    ];
    let resolved = resolve_scripts(&scripts, &sources).unwrap();
    match &resolved[0] {
        MigrationScript::Simple(c) => assert_eq!(c, "CREATE TABLE a(x);"),
        _ => panic!("must stay simple"),
    }
    match &resolved[1] {
        MigrationScript::Reversible(u, d) => {
            assert_eq!(u, "up sql");
            assert_eq!(d, "down sql");
        }
        _ => panic!("must stay reversible"),
    }
}

#[test]
fn resolve_reports_missing_source() {
    let sources = vec![source("1_init.sql", "CREATE TABLE a(x);")];
    let scripts = vec![MigrationScript::Simple("9_ghost.sql".to_string())];
    let err = resolve_scripts(&scripts, &sources).unwrap_err();
    assert_eq!(
        err,
        MigrationError::MissingMigrationSource("9_ghost.sql".to_string())
    );
}
