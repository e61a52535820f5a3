[package]
name = "resonite_link"
version = "0.1.0"
edition = "2021"
publish = false

[dependencies]
serde_json = "1"
rand = "0.9"
tokio = { version = "1", features = ["macros", "rt-multi-thread", "sync", "net", "time"] }
tokio-tungstenite = "*"
futures-util = "0.3"
log = "0.4"
env_logger = "0.11"
thiserror = "2"
clap = { version = "4", features = ["derive"] }
tonic = "*"
