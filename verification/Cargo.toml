[package]
name = "cw_cyber_airdrop"
version = "0.1.0"
edition = "2021"
publish = false

[dependencies]
cosmwasm-crypto = "*"
sha2 = "*"
sha3 = "*"
serde = "*"
serde_json = "*"

[dev-dependencies]
hex = "*"
k256 = "*"
