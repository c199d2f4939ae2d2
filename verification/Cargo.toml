[package]
name = "deadpool_libsql"
version = "0.1.0"
edition = "2021"
publish = false

[dependencies]
bytes = { version = "=1.12.1", features = ["serde"] }
libsql = "=0.10.0"
serde = { version = "=1.0.229", features = ["derive"] }
thiserror = "=2.0.21"
tokio = { version = "=1.54.1", features = ["rt", "sync", "time"] }
