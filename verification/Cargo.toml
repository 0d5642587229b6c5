[package]
name = "tataku"
version = "0.1.0"
edition = "2021"
publish = false

[dependencies]
chrono = "0.4"
serde = { version = "1", features = ["derive"] }
serde_json = "1"
tokio = { version = "1", features = ["rt-multi-thread", "sync", "time", "macros", "net"] }
reqwest = { version = "0.12", default-features = false, features = ["json"] }
discord-rich-presence = "*"
tokio-tungstenite = "*"
futures-util = "0.3"
