[package]
name = "arcam"
version = "0.1.0"
edition = "2021"
publish = false

[dependencies]
anyhow = "1"
base64 = "0.22"
chrono = "0.4"
clap = { version = "4", features = ["derive", "env"] }
clap_complete = "4"
log = "0.4"
rand = "0.9"
regex-syntax = "0.8"
serde = { version = "1", features = ["derive"] }
serde_json = "1"
shellexpand = "3"
simple_logger = "5"
tempfile = "3"
toml = "0.8"
users = "0.11"
