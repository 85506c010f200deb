[package]
name = "blockchain_api"
version = "0.1.0"
edition = "2021"
publish = false

[dependencies]
actix = "0.13"
actix-web = "4"
env_logger = "0.11"
futures-util = "0.3"
json = "0.12"
rand = "0.8"
serde = { version = "1", features = ["derive"] }
serde_derive = "1"
serde_json = "1"
serde_yaml = "0.9"
sha256 = "1"
