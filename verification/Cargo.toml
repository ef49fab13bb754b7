[package]
name = "opday"
version = "0.1.0"
edition = "2021"
publish = false

[dependencies]
base64 = "0.22"
clap = { version = "4", features = ["derive"] }
env_logger = "0.11"
log = "0.4"
serde = { version = "1", features = ["derive"] }
serde_json = "1"
serde_yaml = "0.9"
term = "0.7"
toml = "0.8"
