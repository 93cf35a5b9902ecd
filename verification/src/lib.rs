//! A split read/write connection-pool library for a single embedded SQL
//! database file.
//!
//! The crate models the pieces of such a pool that admit exact reasoning:
//! the single-writer/multi-reader admission discipline, the discovery,
//! validation and ordering of schema migrations, the `VALUES` clause builder,
//! and the batching arithmetic that keeps every bulk statement under the
//! engine's bound-parameter limit. Calls into the embedded database engine
//! itself go through a small set of trusted wrappers.

pub mod auth;
pub mod batched;
pub mod config;
pub mod error;
pub mod migration;
pub mod pool;
pub mod pragmas;
pub mod query;
pub mod sqlite;
pub mod text;

pub use auth::WriteAuthorization;
pub use batched::BatchedBulkValuesClause;
pub use config::Config;
pub use config::MigrationConfig;
pub use error::Error;
pub use error::MigrationError;
pub use migration::run_migrations;
pub use pragmas::Pragmas;
pub use query::values_clause;
