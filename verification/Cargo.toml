[package]
name = "state_overlay"
version = "0.1.0"
edition = "2021"
publish = false

[dependencies]
anyhow = "1"
cairo-lang-starknet-classes = "~2.6.0"
flate2 = "=1.1.10"
indexmap = "=2.14.2"
log = "0.4"
parity-scale-codec = { version = "3", features = ["derive"] }
serde_json = "=1.0.154"
starknet-core = "=0.11.1"
starknet-types-core = "=0.1.7"
starknet_api = "=0.10.0"
