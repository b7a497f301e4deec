[package]
name = "relay_core"
version = "0.1.0"
edition = "2021"
publish = false

[dependencies]
url = "=2.5.8"
tokio = { version = "=1.54.1", features = ["rt-multi-thread", "macros", "net", "sync", "time", "signal"] }
tokio-tungstenite = "=0.24.0"
futures-util = "=0.3.34"
log = "=0.4.34"
env_logger = { version = "=0.11.11", default-features = false }
async-channel = "=2.5.0"
