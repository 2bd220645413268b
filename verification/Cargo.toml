[package]
name = "tcr_deploy"
version = "0.1.0"
edition = "2021"
publish = false

[dependencies]
rustc-hex = "=1.0.0"
tiny-keccak = "=1.5.0"
serde = { version = "=1.0.229", features = ["derive"] }
serde_json = "=1.0.154"
web3 = { version = "=0.8.0", default-features = false, features = ["http"] }
solc = "=0.3.7"
