[package]
name = "tdtp"
version = "0.1.0"
edition = "2021"
publish = false

[dependencies]
log = "0.4"
derive_more = { version = "*", features = ["from"] }
statrs = { version = "*", default-features = false }
rand = "0.9"
simplelog = "*"
env_logger = "*"
colored = "*"
time = "0.3"
