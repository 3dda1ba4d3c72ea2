[package]
name = "rs_backend"
version = "0.1.0"
edition = "2021"
publish = false

[dependencies]
rusqlite = { version = "*", features = ["bundled"] }
r2d2 = "*"
r2d2_sqlite = "*"
chrono = "*"
rayon = "*"
serde = { version = "*", features = ["derive"] }
serde_json = "*"
axum = { version = "*", features = ["multipart"] }
tokio = { version = "*", features = ["rt-multi-thread", "net", "fs", "macros"] }
tower-http = { version = "*", features = ["cors"] }
tracing = "*"
tracing-subscriber = { version = "*", features = ["env-filter"] }
dotenv = "*"

[dev-dependencies]
tempfile = "*"
