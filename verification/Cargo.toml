[package]
name = "hog_ingest"
version = "0.1.0"
edition = "2021"
publish = false

[dependencies]
anyhow = "*"
axum = "*"
axum-server = "*"
bson = "*"
chrono = { version = "*", features = ["serde"] }
dotenv = "*"
futures = "*"
governor = "*"
lapin = "*"
lazy_static = "*"
mongodb = "*"
once_cell = "*"
prometheus = "*"
serde = { version = "*", features = ["derive"] }
serde_json = "*"
tokio = { version = "*", features = ["macros", "rt-multi-thread", "time"] }
uuid = { version = "*", features = ["v4"] }
