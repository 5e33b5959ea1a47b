[package]
name = "entity_snapshot"
version = "0.1.0"
edition = "2021"
publish = false

[dependencies]
uuid = { version = "1", features = ["v4", "serde"] }
serde = { version = "1", features = ["derive"] }
serde_json = "1"
chrono = { version = "0.4", features = ["serde"] }
arrow = { version = "*", default-features = false }
arrow-flight = "*"
tonic = "*"
tokio = { version = "1", features = ["rt-multi-thread", "macros", "sync"] }
tokio-stream = "*"
