[package]
name = "rifts"
version = "0.1.0"
edition = "2021"
publish = false

[dependencies]
bytes = "1"
ciborium = "0.2"
dashmap = "6"
futures-util = "0.3"
parking_lot = "0.12"
redis = { version = "*", features = ["tokio-comp"] }
serde = { version = "1", features = ["derive"] }
serde_json = "1"
thiserror = "2"
tokio = { version = "1", features = ["full"] }
tokio-tungstenite = "*"
tracing = "0.1"
ulid = "1"
uuid = { version = "1", features = ["v4"] }
