[package]
name = "rustwire"
version = "0.1.0"
edition = "2021"
publish = false

[dependencies]
serde_yaml = "*"
dotenv = "*"
log = "*"
env_logger = "*"
