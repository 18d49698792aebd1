[package]
name = "moonlapse"
version = "0.1.0"
edition = "2021"
publish = false

[dependencies]
anyhow = "1"
env_logger = "0.11"
flexbuffers = "*"
hecs = "*"
log = "0.4"
ratatui = "*"
rmp-serde = "*"
serde = { version = "1", features = ["derive"] }
serde_json = "1"
tokio = { version = "1", features = ["full"] }
