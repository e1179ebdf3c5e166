[package]
name = "avs_toolkit"
version = "0.1.0"
edition = "2021"
publish = false

[dependencies]
anyhow = "1"
base64 = "0.22"
hex = "0.4"
sha2 = "0.10"
serde = { version = "1", features = ["derive"] }
serde_json = "1"
futures = "0.3"
tracing = "0.1"
reqwest = { version = "0.12", default-features = false, features = ["json"] }
cosmwasm-std = "2"
wit-bindgen-rt = "0.31"
web3 = { version = "0.19", default-features = false }
