[package]
name = "todo_core"
version = "0.1.0"
edition = "2021"
publish = false

[dependencies]
chrono = "0.4"
diesel = { version = "2", features = ["sqlite", "r2d2"] }
diesel_migrations = "2"
libsqlite3-sys = { version = "*", features = ["bundled"] }
serde = { version = "1", features = ["derive"] }
thiserror = "*"
tracing = "0.1"
tracing-appender = "0.2"
tracing-subscriber = { version = "0.3", features = ["env-filter"] }
validator = { version = "*", features = ["derive"] }
