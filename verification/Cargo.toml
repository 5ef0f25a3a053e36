[package]
name = "ackerman-qqbot"
version = "0.1.0"
edition = "2021"
publish = false

[dependencies]
chrono = "=0.4.45"
futures-util = "=0.3.34"
reqwest = { version = "=0.12.28", features = ["json"] }
serde = { version = "=1.0.229", features = ["derive"] }
serde_json = { version = "=1.0.154", features = ["preserve_order"] }
tokio = { version = "=1.54.1", features = ["macros", "net", "rt-multi-thread", "time"] }
tokio-tungstenite = { version = "=0.30.0", features = ["native-tls"] }
toml = "=1.1.8"
url = { version = "=2.5.8", features = ["serde"] }
