[package]
name = "eldorado"
version = "0.1.0"
edition = "2021"
publish = false

[dependencies]
cosmwasm-std = { version = "1.5", features = ["stargate"] }
cosmwasm-schema = "1.5"
cw-storage-plus = "1.2"
cw-utils = "1.0"
cw2 = "1.1"
thiserror = "1"
bech32 = "0.9"
osmosis-std = "0.22"
kujira = "0.8"
serde = { version = "1", features = ["derive"] }
schemars = "0.8"
