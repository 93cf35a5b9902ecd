//! Plain configuration values consumed by the pool and the migration engine.

use vstd::prelude::*;

use crate::pragmas::Pragmas;

verus! {

/// Target-version policy for migrations.
#[derive(Debug, Clone, PartialEq, Eq)]
pub struct MigrationConfig {
    /// Explicit target version. Absent means "latest".
    pub to: Option<usize>,
    /// If set, first migrate to this version before migrating to the `to`
    /// version. Helpful for rolling back some changes once.
    pub first_to: Option<usize>,
}

impl Default for MigrationConfig {
    /// No explicit target and no first target.
    fn default() -> (r: Self)
        ensures
            r.to is None,
            r.first_to is None,
    {
        MigrationConfig { to: None, first_to: None }
    }
}

/// Configuration for one database.
#[derive(Debug, Clone, PartialEq, Eq)]
pub struct Config {
    /// The URL of the database file to connect to.
    pub url: String,
    /// Pragmas applied to every physical connection on creation.
    pub pragmas: Pragmas,
    /// The minimum number of read connections kept in the reader pool.
    pub min_read_connections: Option<u32>,
    /// The maximum number of read connections in the reader pool. Write
    /// connections are always limited to one.
    pub max_read_connections: u32,
    /// How long, in seconds, to wait for a connection before giving up.
    pub connect_timeout: u64,
    /// How long, in seconds, a connection may sit idle before it is closed.
    pub idle_timeout: Option<u64>,
    /// How long, in seconds, the engine may retry a busy database.
    pub busy_timeout: Option<u64>,
    /// Target-version policy for migrations run at startup.
    pub migrate: MigrationConfig,
}

} // verus!
