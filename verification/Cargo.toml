[package]
name = "red_or_black"
version = "0.1.0"
edition = "2021"
publish = false

[dependencies]
env_logger = "*"
log = "*"
rand = "0.5"
serde = "*"
serde_derive = "*"
serde_json = "*"
ws = "*"
