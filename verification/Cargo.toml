[package]
name = "model_speed"
version = "0.1.0"
edition = "2021"
publish = false

[dependencies]
serde = { version = "1", features = ["derive"] }
serde_json = "1"
reqwest = { version = "0.12", default-features = false, features = ["stream", "rustls-tls"] }
tokio = { version = "1", features = ["sync", "rt"] }
futures-util = "0.3"
chrono = { version = "0.4", features = ["serde"] }
dirs = "5"
