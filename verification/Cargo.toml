[package]
name = "sqlite_rw_pool"
version = "0.1.0"
edition = "2021"
publish = false

[dependencies]
rusqlite = { version = "*", features = ["bundled"] }
rusqlite_migration = "*"
r2d2 = "*"
r2d2_sqlite = "*"
tokio = { version = "*", features = ["sync", "time", "rt", "rt-multi-thread", "macros"] }
rocket = "*"
serde = { version = "*", features = ["derive"] }
serde_rusqlite = "*"
rust-embed = "*"
