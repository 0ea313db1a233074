[package]
name = "service_info"
version = "0.1.0"
edition = "2021"
publish = false

[dependencies]
axum = "0.6"
serde_json = "1"
tokio = { version = "1", features = ["macros", "rt-multi-thread"] }
