[package]
name = "spotflow"
version = "0.1.0"
edition = "2021"
publish = false

[dependencies]
serde_json = "*"
uuid = "*"
http = "*"
tokio = { version = "*", features = ["rt-multi-thread", "net", "io-util", "time", "sync"] }
tokio-tungstenite = "*"
futures-util = "*"
rumqttc = "*"
log = "*"
