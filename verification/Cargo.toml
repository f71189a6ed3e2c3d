[package]
name = "quotes"
version = "0.1.0"
edition = "2021"
publish = false

[dependencies]
axum = "0.6"
bson = "2"
chrono = { version = "0.4", features = ["serde"] }
dotenv = "0.15"
mongodb = { version = "2", features = ["zstd-compression", "zlib-compression", "snappy-compression"] }
serde = { version = "1", features = ["derive"] }
tokio = { version = "1", features = ["full"] }
tower-http = { version = "0.4", features = ["limit", "set-header", "timeout", "trace"] }
tracing = "0.1"
tracing-subscriber = "0.3"
