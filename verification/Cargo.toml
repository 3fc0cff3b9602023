[package]
name = "miband4"
version = "0.1.0"
edition = "2021"
publish = false

[dependencies]
aes = "*"
cbc = "*"
zbus = "*"
chrono = "*"
futures = "*"
async-io = "*"
async-net = "*"
async-fs = "*"
serde = { version = "*", features = ["derive"] }
serde_json = "*"
log = "*"
env_logger = "*"
