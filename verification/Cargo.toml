[package]
name = "matrix_wechat_agent"
version = "0.1.0"
edition = "2021"
publish = false

[dependencies]
rust-crypto = "0.2"
anyhow = "1"
bytes = "1"
chrono = { version = "0.4", features = ["serde"] }
clap = { version = "4", features = ["derive"] }
dirs = "4"
futures-util = "0.3"
libloading = "0.7"
log = "0.4"
log4rs = "1"
reqwest = { version = "0.11", features = ["gzip", "json"] }
serde = { version = "1", features = ["derive"] }
serde_json = "1"
serde_repr = "0.1"
serde_with = "2"
sysinfo = "0.29"
tokio = { version = "1", features = ["full"] }
tokio-tungstenite = "0.18"
tokio-util = { version = "0.7", features = ["codec"] }
url = "2"
