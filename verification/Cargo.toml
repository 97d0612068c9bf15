[package]
name = "twilight-voice"
version = "0.1.0"
edition = "2021"
publish = false

[dependencies]
async-trait = "0.1"
futures-util = "0.3"
serde = { version = "1", features = ["derive"] }
serde_json = "1"
serde_repr = "0.1"
thiserror = "1"
tokio = { version = "1", features = ["net", "sync", "time"] }
tokio-tungstenite = { version = "0.20", features = ["native-tls"] }
twilight-model = "0.15"

[dev-dependencies]
discortp = { version = "0.6", features = ["discord"] }
