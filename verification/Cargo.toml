[package]
name = "fork_state"
version = "0.1.0"
edition = "2021"
publish = false

[dependencies]
flate2 = "=1.1.10"
num-bigint = "=0.4.8"
itertools = "=0.12.1"
serde = { version = "1", features = ["derive"] }
serde_json = "1"
anyhow = "1"
thiserror = "1"
tokio = { version = "1", features = ["rt-multi-thread"] }
url = "2"
starknet = "=0.9.0"
starknet_api = "=0.8.0"
cairo-lang-starknet-classes = "=2.21.0"
