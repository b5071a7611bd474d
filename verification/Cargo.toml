[package]
name = "coinpaprika_api"
version = "0.1.0"
edition = "2021"
publish = false

[dependencies]
chrono = "0.4"
reqwest = { version = "0.11", features = ["json"] }
reqwest-middleware = "0.2"
reqwest-retry = "0.2"
serde = { version = "1", features = ["derive"] }
serde_json = "1"
