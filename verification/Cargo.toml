[package]
name = "fungible_runtime"
version = "0.1.0"
edition = "2021"
publish = false

[dependencies]
bitcoin_hashes = "=1.2.0"
lnpbp = "0.9"
zmq = "0.10"
log = "0.4"
serde = { version = "1", features = ["derive"] }
serde_json = "1"
serde_yaml = "0.9"
toml = "0.8"
