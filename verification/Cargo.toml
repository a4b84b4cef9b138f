[package]
name = "ngrok"
version = "0.1.0"
edition = "2021"
publish = false

[dependencies]
url = "2"
proxy-protocol = "0.5"
serde = { version = "1", features = ["derive"] }
serde_json = "1"
base64 = "0.21"
hostname = "0.3"
bytes = "1"
tokio = { version = "1", features = ["full"] }
tokio-util = { version = "0.7", features = ["compat"] }
muxado = "*"
async-trait = "0.1"
futures = "0.3"
thiserror = "1"
tracing = "0.1"
once_cell = "1"
awaitdrop = "*"
arc-swap = "1"
parking_lot = "0.12"
tokio-retry = "0.3"
rand = "0.8"
pin-project = "1"
futures-rustls = "*"
rustls-pemfile = "*"
