[package]
name = "upload_api"
version = "0.1.0"
edition = "2021"
publish = false

[dependencies]
chrono = "*"
axum = { version = "*", features = ["multipart"] }
tokio = { version = "*", features = ["rt-multi-thread", "macros", "net", "fs", "io-util"] }
tower-http = { version = "*", features = ["fs", "trace"] }
serde_json = "*"
tracing = "*"
tracing-subscriber = "*"
