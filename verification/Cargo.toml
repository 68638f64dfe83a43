[package]
name = "inti_e3m"
version = "0.1.0"
edition = "2021"
publish = false

[dependencies]
tokio = { version = "*", features = ["rt-multi-thread", "macros", "sync", "net", "io-util", "time"] }
tokio-serial = "*"
tokio-tungstenite = "*"
tokio-util = "*"
futures-util = "*"
serde = { version = "*", features = ["derive"] }
serde_json = "*"
log = "*"
