[package]
name = "trading_engine"
version = "0.1.0"
edition = "2021"
publish = false

[dependencies]
chrono = "0.4"
serde = { version = "1", features = ["derive"] }
serde_json = "1"
redis = "0.23"
mongodb = "2"
tokio = { version = "1", features = ["full"] }
