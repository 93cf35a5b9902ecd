//! Error taxonomy of the library.

use vstd::prelude::*;

verus! {

/// Errors from discovering, validating, or applying schema migrations.
/// Validation errors name the offending version or source so the operator
/// can fix the migration assets.
#[derive(Debug, Clone, PartialEq, Eq)]
pub enum MigrationError {
    /// Versions must be incrementing integers starting from 1; holds the
    /// expected version and the version found.
    WrongVersionNumber(usize, usize),
    /// A version with a single source must use a plain `.sql` name; holds
    /// the offending source name.
    WrongTypeForSingleMigration(String),
    /// A version with two sources must begin with the `.up.sql` one; holds
    /// the name found in its place.
    ReversibleMigrationMissingUp(String),
    /// A version with two sources must end with the `.down.sql` one; holds
    /// the name found in its place.
    ReversibleMigrationMissingDown(String),
    /// Holds the version and the number of sources found for it, which was
    /// more than two.
    TooManyMigrationsForVersion(usize, usize),
    /// A validated source name had no content to fetch; holds the name.
    MissingMigrationSource(String),
    /// The underlying migration library failed; holds its rendered error.
    RusqliteMigration(String),
}

/// Errors surfaced by the connection pool and its helpers.
#[derive(Debug, Clone, PartialEq, Eq)]
pub enum Error {
    /// The database engine failed; holds its rendered error.
    Rusqlite(String),
    /// Row serialization or deserialization failed; holds the rendered cause.
    SerdeRusqlite(String),
    /// No concurrency permit was obtained within the connect timeout.
    /// Safe for the caller to retry.
    ConnectionPermitRetrievalTimeout,
    /// Physical checkout from the underlying pool failed after a permit was
    /// already held; holds the rendered cause.
    ConnectionFailure(String),
    /// Building an underlying pool failed at startup; holds the rendered cause.
    PoolCreation(String),
    /// The supplied configuration could not be read; holds the rendered cause.
    Configuration(String),
    /// Running migrations at startup failed.
    Migration(MigrationError),
    /// No pool was registered for the named database.
    MissingDatabaseFairing(String),
    /// No write authorization was presented when fetching a connection.
    Unauthorized,
}

} // verus!
