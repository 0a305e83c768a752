[package]
name = "serde_jsonlines"
version = "0.1.0"
edition = "2021"
publish = false

[dependencies]
serde = "=1.0.229"
serde_json = { version = "=1.0.154", features = ["preserve_order"] }
futures = { version = "=0.3.34", default-features = false, features = ["std"] }
pin-project-lite = "=0.2.17"
tokio = { version = "=1.54.1", features = ["io-util"] }
tokio-stream = { version = "=0.1.19", default-features = false }
