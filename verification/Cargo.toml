[package]
name = "raft"
version = "0.1.0"
edition = "2021"
publish = false

[dependencies]
bincode = "0.8"
bytes = "0.4"
clap = "2"
env_logger = "0.4"
error-chain = "0.10"
futures = "0.1"
log = "0.3"
serde = "1"
serde_derive = "1"
tokio-core = "0.1"
tokio-io = "0.1"
tokio-proto = "0.1"
tokio-service = "0.1"
