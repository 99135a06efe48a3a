[package]
name = "swarm_kit"
version = "0.1.0"
edition = "2021"
publish = false

[dependencies]
air-interpreter-wasm = "=0.64.1"
anyhow = "=1.0.104"
async-std = "=1.13.2"
chrono = "=0.4.45"
env_logger = "=0.8.4"
fluence-fork-libp2p-core = "=0.20.2"
futures = "=0.3.34"
libp2p = { version = "=0.36.0", default-features = false }
log = "=0.4.35"
multihash = { version = "=0.13.2", default-features = false }
rand = "=0.7.3"
serde_json = "=1.0.99"
trust-graph = "=0.1.0"
uuid = { version = "=0.8.2", features = ["v4"] }
