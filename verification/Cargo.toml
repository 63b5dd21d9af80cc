[package]
name = "tinyid"
version = "0.1.0"
edition = "2021"
publish = false

[dependencies]
http = "1"
chrono = "0.4"
uuid = { version = "1", features = ["v4"] }
anyhow = "1"
thiserror = "*"
serde = { version = "1", features = ["derive"] }
serde_json = "1"
axum = "*"
tokio = { version = "1", features = ["full"] }
tokio-util = "*"
tower = "*"
tower-http = { version = "*", features = ["request-id", "timeout", "trace"] }
tracing = "0.1"
tracing-subscriber = { version = "0.3", features = ["env-filter", "json", "time"] }
dotenvy = "*"
