[package]
name = "collector_core"
version = "0.1.0"
edition = "2021"
publish = false

[dependencies]
uuid = { version = "1", features = ["v4"] }
rand = "0.9"
sqlparser = "*"
serde = { version = "1", features = ["derive"] }
serde_json = "1"
bincode = { version = "2", features = ["serde"] }
tokio = { version = "1", features = ["sync", "rt", "macros", "time"] }
anyhow = "1"
tracing = "0.1"
