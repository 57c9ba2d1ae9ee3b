[package]
name = "anthropic_stream"
version = "0.1.0"
edition = "2021"
publish = false

[dependencies]
serde_json = "1"
serde = { version = "1", features = ["derive"] }
futures = "0.3"
tokio = "1"
tokio-stream = "0.1"
async-stream = "0.3"
