[package]
name = "plc_backend"
version = "0.1.0"
edition = "2021"
publish = false

[dependencies]
sysinfo = "0.29"
serialport = { version = "4", default-features = false }
tokio = { version = "1", features = ["time", "process", "io-util", "rt", "macros"] }
rocket = { version = "0.5", features = ["json"] }
rocket_sync_db_pools = { version = "0.1", features = ["diesel_sqlite_pool"] }
diesel = { version = "2", features = ["sqlite"] }
diesel_migrations = "2"
