[package]
name = "shield_core"
version = "0.1.0"
edition = "2021"
publish = false

[dependencies]
uuid = { version = "1", features = ["v4"] }
chrono = "0.4"
sha2 = "0.10"
hex = "0.4"
serde = { version = "1", features = ["derive"] }
serde_json = "1"
tokio = { version = "1", features = ["full"] }
axum = "*"
sqlx = { version = "*", default-features = false, features = ["sqlite", "runtime-tokio", "macros"] }
reqwest = { version = "*", default-features = false, features = ["json"] }
jsonwebtoken = "*"
thiserror = "*"
tracing = "0.1"
