[package]
name = "nonstd_replay"
version = "0.1.0"
edition = "2021"
publish = false

[dependencies]
bitcoin = "*"
bitcoin-pool-identification = "*"
bitcoincore-rpc = "*"
config = "*"
csv = "*"
env_logger = "*"
log = "*"
serde = { version = "*", features = ["derive"] }
