[package]
name = "hbb_common"
version = "0.1.0"
edition = "2021"
publish = false

[dependencies]
anyhow = "=1.0.104"
base64 = "=0.22.1"
bytes = "=1.12.1"
chrono = "0.4"
clap = "4"
env_logger = "0.11"
kcp-sys = "=0.1.0"
lazy_static = "=1.5.1"
log = "=0.4.35"
protobuf = "=3.7.2"
serde_json = "=1.0.154"
tokio = { version = "=1.54.1", features = ["full"] }
tokio-util = { version = "=0.7.20", features = ["codec"] }
webrtc = "=0.14.0"
