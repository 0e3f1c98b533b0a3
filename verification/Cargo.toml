[package]
name = "easy_db"
version = "0.1.0"
edition = "2021"
publish = false

[dependencies]
anyhow = "*"
axum = "0.8"
reqwest = { version = "*", default-features = false, features = ["json"] }
rusqlite = { version = "*", features = ["bundled"] }
serde_json = "*"
tokio = { version = "*", features = ["rt-multi-thread", "net", "macros", "time"] }
tower-http = { version = "*", features = ["cors"] }
