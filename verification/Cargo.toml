[package]
name = "tendermint_lite"
version = "0.1.0"
edition = "2021"
publish = false

[dependencies]
ed25519-dalek = "*"
chrono = { version = "*", default-features = false }
prost = "*"
serde_json = "*"
signatory = "*"
subtle-encoding = "*"
toml = "*"
