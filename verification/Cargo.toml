[package]
name = "odyssey_core"
version = "0.1.0"
edition = "2021"
publish = false

[dependencies]
rand = "*"
serde = { version = "*", features = ["derive"] }
serde_json = "*"
rmp-serde = "*"
rusqlite = { version = "*", features = ["bundled"] }
tokio = { version = "*", features = ["rt-multi-thread", "macros", "net", "signal", "sync", "time"] }
tokio-tungstenite = "*"
futures-util = "*"
tracing = "*"
tracing-subscriber = "*"
argon2 = "*"
