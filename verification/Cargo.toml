[package]
name = "mns"
version = "0.1.0"
edition = "2021"
publish = false

[dependencies]
axum = { version = "=0.8.9", default-features = false, features = ["http1", "json", "query", "tokio"] }
clap = { version = "=4.6.7", default-features = false, features = ["derive", "std", "help"] }
env_logger = { version = "=0.11.11", default-features = false }
lazy_static = "=1.5.1"
log = "=0.4.34"
miden-assembly = "=0.13.2"
miden-client = { version = "=0.8.1", features = ["tonic", "sqlite"] }
miden-lib = "=0.8.0"
miden-objects = "=0.8.1"
rand = "=0.9.5"
rusqlite = "=0.32.1"
serde = { version = "=1.0.229", features = ["derive"] }
tokio = { version = "=1.54.1", features = ["rt", "rt-multi-thread", "macros", "net", "sync"] }
tower-http = { version = "=0.6.11", default-features = false, features = ["cors"] }
