[package]
name = "spindle_backend"
version = "0.1.0"
edition = "2021"
publish = false

[dependencies]
anyhow = "1"
axum = "0.6"
chrono = "0.4"
rand = "0.8"
reqwest = { version = "0.11", default-features = false }
rumqttc = { version = "0.23", default-features = false }
serde = { version = "1", features = ["derive"] }
serde_json = "1"
tokio = { version = "1", features = ["full"] }
tracing = "0.1"
tracing-subscriber = "0.3"
