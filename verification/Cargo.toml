[package]
name = "notifications"
version = "0.1.0"
edition = "2021"
publish = false

[dependencies]
axum = "=0.8.9"
chrono = "=0.4.45"
config = { version = "=0.15.27", default-features = false, features = ["yaml"] }
serde = { version = "=1.0.229", features = ["derive"] }
serde_json = "=1.0.154"
tokio = { version = "=1.54.1", features = ["net", "rt-multi-thread"] }
uuid = { version = "=1.29.0", features = ["v4"] }
