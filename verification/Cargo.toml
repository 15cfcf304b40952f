[package]
name = "lindows"
version = "0.1.0"
edition = "2021"
publish = false

[dependencies]
anyhow = "=1.0.104"
crabgrab = { version = "=0.4.0", features = ["bitmap"] }
flatbuffers = "=24.12.23"
futures-util = "=0.3.34"
serde_json = "=1.0.154"
tokio = { version = "=1.54.1", features = ["full"] }
tokio-tungstenite = "=0.21.0"
tracing = "=0.1.44"
tracing-subscriber = "=0.3.23"
webrtc = "=0.11.0"
