[package]
name = "chat_node"
version = "0.1.0"
edition = "2021"
publish = false

[dependencies]
anyhow = "1"
async-std = { version = "1.12", features = ["attributes"] }
env_logger = "0.10"
futures = "0.3"
libp2p = { version = "0.52", features = ["async-std", "dns", "gossipsub", "identify", "macros", "noise", "ping", "tcp", "yamux"] }
log = "0.4"
