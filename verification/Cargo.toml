[package]
name = "token_ownership"
version = "0.1.0"
edition = "2021"
publish = false

[dependencies]
ahash = { version = "=0.8.12", features = ["serde"] }
anyhow = "=1.0.104"
bigdecimal = { version = "=0.4.11", features = ["serde"] }
canonical_json = "=0.5.0"
chrono = { version = "=0.4.45", features = ["serde"] }
serde = { version = "=1.0.229", features = ["derive"] }
serde_json = "=1.0.154"
tokio = { version = "=1.54.1", features = ["time"] }
tracing = "=0.1.44"
