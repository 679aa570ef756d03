[package]
name = "chat_relay"
version = "0.1.0"
edition = "2021"
publish = false

[dependencies]
uuid = { version = "1", features = ["v4"] }
rand = "0.9"
serde_json = "1"
serde = { version = "1", features = ["derive"] }
tokio = { version = "1", features = ["rt-multi-thread", "macros", "sync", "time", "net"] }
futures = "0.3"
redis = { version = "*", features = ["tokio-comp"] }
reqwest = { version = "0.12", features = ["json", "cookies"] }
reqwest-eventsource = "0.6"
tokio-tungstenite = "*"
tungstenite = "*"
config-file = "0.2"
once_cell = "1"
log = "0.4"
env_logger = "0.11"
