[package]
name = "opencode_protocol"
version = "0.1.0"
edition = "2021"
publish = false

[dependencies]
anyhow = "*"
chrono = "*"
serde = { version = "*", features = ["derive"] }
serde_json = "*"
sqlx = { version = "*", default-features = false, features = ["runtime-tokio", "sqlite", "chrono"] }
tokio = { version = "*", features = ["rt", "macros"] }
tracing = "*"
uuid = { version = "*", features = ["v4"] }
