[package]
name = "webhook_relay"
version = "0.1.0"
edition = "2021"
publish = false

[dependencies]
axum = "0.6"
axum-macros = "0.3"
serde_json = "1"
tokio = { version = "1", features = ["full"] }
tower-http = { version = "0.4", features = ["cors", "trace"] }
tracing = "0.1"
tracing-subscriber = "0.3"
