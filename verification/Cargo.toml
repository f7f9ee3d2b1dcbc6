[package]
name = "mansa"
version = "0.1.0"
edition = "2021"
publish = false

[dependencies]
chrono = "0.4"
priority-queue = "1"
tokio = { version = "1", features = ["full"] }
tokio-stream = "0.1"
futures = "0.3"
reqwest = { version = "0.11", default-features = false, features = ["json", "rustls-tls"] }
mongodb = "2"
serde = { version = "1", features = ["derive"] }
serde_json = "1"
log = "0.4"
log4rs = "1"
