//! The trusted boundary to the embedded database engine and to the
//! migration-stepping library. Every declaration and `external_body`
//! function here is believed, not proved: each doc comment names the
//! outside item relied on. Outside errors are rendered to strings at this
//! boundary, since the crate's own error types carry rendered causes.

use vstd::prelude::*;

verus! {

#[verifier::external_type_specification]
#[verifier::external_body]
pub struct ExConnection(rusqlite::Connection);

#[verifier::external_type_specification]
#[verifier::external_body]
pub struct ExTransaction<'a>(rusqlite::Transaction<'a>);

#[verifier::external_type_specification]
#[verifier::external_body]
pub struct ExCachedStatement<'a>(rusqlite::CachedStatement<'a>);

#[verifier::external_type_specification]
#[verifier::external_body]
pub struct ExRow<'a>(rusqlite::Row<'a>);

#[verifier::external_type_specification]
#[verifier::external_body]
pub struct ExValue(rusqlite::types::Value);

#[verifier::external_type_specification]
#[verifier::external_body]
pub struct ExM<'a>(rusqlite_migration::M<'a>);

#[verifier::external_type_specification]
#[verifier::external_body]
pub struct ExMigrations<'a>(rusqlite_migration::Migrations<'a>);

/// Relies on rusqlite's `Connection::execute_batch`: runs each statement of
/// `sql` in sequence. Nothing can be promised of the database's reaction;
/// a failure is rendered through the engine error's `Debug` form.
#[verifier::external_body]
pub(crate) fn execute_batch(conn: &rusqlite::Connection, sql: &str) -> (r: Result<(), String>) {
    conn.execute_batch(sql).map_err(|e| format!("{e:?}"))
}

/// Relies on rusqlite's `Connection::prepare_cached`, reached through the
/// transaction's deref to its connection: prepares one statement, taking it
/// from the connection's statement cache when the text was seen before.
#[verifier::external_body]
pub(crate) fn prepare_cached<'c>(tx: &'c rusqlite::Transaction<'_>, sql: &str) -> (r: Result<
    rusqlite::CachedStatement<'c>,
    String,
>) {
    tx.prepare_cached(sql).map_err(|e| format!("{e:?}"))
}

/// Relies on rusqlite's `Statement::execute` with `params_from_iter`: binds
/// the given positional parameters and runs the statement, returning the
/// engine's count of changed rows.
#[verifier::external_body]
pub(crate) fn stmt_execute(
    stmt: &mut rusqlite::CachedStatement<'_>,
    params: &Vec<rusqlite::types::Value>,
) -> (r: Result<usize, String>) {
    stmt.execute(rusqlite::params_from_iter(params.iter())).map_err(|e| format!("{e:?}"))
}

/// Relies on rusqlite's `Row::get` at the owned-value type: reads one column
/// of the current row.
#[verifier::external_body]
pub(crate) fn row_value(row: &rusqlite::Row<'_>, i: usize) -> (r: Result<
    rusqlite::types::Value,
    String,
>) {
    row.get(i).map_err(|e| format!("{e:?}"))
}

/// Reads the first `ncols` columns of one result row.
pub(crate) fn row_to_values(row: &rusqlite::Row<'_>, ncols: usize) -> (r: Result<
    Vec<rusqlite::types::Value>,
    String,
>)
    ensures
        r matches Ok(vs) ==> vs@.len() == ncols,
{
    let mut out: Vec<rusqlite::types::Value> = Vec::new();
    let mut i: usize = 0;
    while i < ncols
        invariant
            i <= ncols,
            out@.len() == i,
        decreases ncols - i,
    {
        match row_value(row, i) {
            Ok(v) => out.push(v),
            Err(e) => {
                return Err(e);
            },
        }
        i = i + 1;
    }
    Ok(out)
}

/// Relies on rusqlite's `Statement::query_map` with `params_from_iter`:
/// binds the given positional parameters, runs the statement, and maps every
/// result row through the verified [`row_to_values`], whose contract gives
/// each returned row exactly `ncols` columns.
#[verifier::external_body]
pub(crate) fn stmt_query_rows(
    stmt: &mut rusqlite::CachedStatement<'_>,
    params: &Vec<rusqlite::types::Value>,
    ncols: usize,
) -> (r: Result<Vec<Vec<rusqlite::types::Value>>, String>)
    ensures
        r matches Ok(rows) ==> forall|i: int| 0 <= i < rows@.len() ==> rows@[i]@.len() == ncols,
{
    match stmt.query_map(rusqlite::params_from_iter(params.iter()), |row| Ok(row_to_values(row, ncols))) {
        Ok(mapped) => match mapped.collect::<Result<Vec<_>, rusqlite::Error>>() {
            Ok(items) => items.into_iter().collect::<Result<Vec<_>, String>>(),
            Err(e) => Err(format!("{e:?}")),
        },
        Err(e) => Err(format!("{e:?}")),
    }
}

/// Relies on rusqlite's `Statement::column_count`: the number of columns the
/// prepared statement will return.
#[verifier::external_body]
pub(crate) fn stmt_column_count(stmt: &rusqlite::CachedStatement<'_>) -> (r: usize) {
    stmt.column_count()
}

/// Relies on rusqlite's `Statement::column_names`: the names of the columns
/// the prepared statement will return, each copied into an owned string.
#[verifier::external_body]
pub(crate) fn stmt_column_names(stmt: &rusqlite::CachedStatement<'_>) -> (r: Vec<String>) {
    stmt.column_names().iter().map(|s| s.to_string()).collect()
}

/// Relies on rusqlite's `CachedStatement::discard`: consumes the statement
/// without returning it to the connection's statement cache.
#[verifier::external_body]
pub(crate) fn stmt_discard(stmt: rusqlite::CachedStatement<'_>) {
    stmt.discard()
}

/// Relies on the derived `Clone` of rusqlite's `Value` (a field-by-field
/// copy of a plain data enum) through `Vec::clone`.
#[verifier::external_body]
pub(crate) fn values_clone(vs: &Vec<rusqlite::types::Value>) -> (r: Vec<rusqlite::types::Value>)
    ensures
        r@ == vs@,
{
    vs.clone()
}

/// Relies on rusqlite_migration's `M::up`: wraps one forward SQL script.
#[verifier::external_body]
pub(crate) fn migration_up<'m>(sql: &'m str) -> (r: rusqlite_migration::M<'m>) {
    rusqlite_migration::M::up(sql)
}

/// Relies on rusqlite_migration's `M::down`: attaches the matching backward
/// script to a forward migration.
#[verifier::external_body]
pub(crate) fn migration_down<'m>(m: rusqlite_migration::M<'m>, sql: &'m str) -> (r:
    rusqlite_migration::M<'m>) {
    m.down(sql)
}

/// Relies on rusqlite_migration's `Migrations::new`: gathers the ordered
/// migration list.
#[verifier::external_body]
pub(crate) fn migrations_new<'m>(ms: Vec<rusqlite_migration::M<'m>>) -> (r:
    rusqlite_migration::Migrations<'m>) {
    rusqlite_migration::Migrations::new(ms)
}

/// Relies on rusqlite_migration's `Migrations::current_version`, which reads
/// the database's schema version, and on its documented translation to a
/// plain version number (no version set reads as zero).
#[verifier::external_body]
pub(crate) fn migrations_current_version(
    ms: &rusqlite_migration::Migrations<'_>,
    conn: &rusqlite::Connection,
) -> (r: Result<usize, String>) {
    ms.current_version(conn).map(usize::from).map_err(|e| format!("{e:?}"))
}

/// Relies on rusqlite_migration's `Migrations::to_version`: steps the
/// database, forward or backward, to exactly the given version, atomically.
#[verifier::external_body]
pub(crate) fn migrations_to_version(
    ms: &rusqlite_migration::Migrations<'_>,
    conn: &mut rusqlite::Connection,
    version: usize,
) -> (r: Result<(), String>) {
    ms.to_version(conn, version).map_err(|e| format!("{e:?}"))
}

/// Relies on rusqlite_migration's `Migrations::to_latest`: steps the
/// database forward to the highest defined version, atomically.
#[verifier::external_body]
pub(crate) fn migrations_to_latest(
    ms: &rusqlite_migration::Migrations<'_>,
    conn: &mut rusqlite::Connection,
) -> (r: Result<(), String>) {
    ms.to_latest(conn).map_err(|e| format!("{e:?}"))
}

} // verus!
