[package]
name = "qtwallset"
version = "0.1.0"
edition = "2021"
publish = false

[dependencies]
clap = "4"
env_logger = "0.11"
log = "0.4"
serde_json = { version = "1", features = ["preserve_order"] }
shellexpand = "3"
