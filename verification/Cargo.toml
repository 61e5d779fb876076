[package]
name = "mucbot_core"
version = "0.1.0"
edition = "2021"
publish = false

[dependencies]
tokio = { version = "*", features = ["full"] }
tokio-xmpp = "=3.5.0"
xmpp-parsers = "=0.20.0"
futures = "*"
crossbeam-channel = "*"
log = "*"
env_logger = "*"
serde = { version = "*", features = ["derive"] }
toml = "*"
chrono = "*"
