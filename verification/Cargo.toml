[package]
name = "storage_outpost"
version = "0.1.0"
edition = "2021"
publish = false

[dependencies]
cosmos-sdk-proto = { version = "0.20", default-features = false }
cosmwasm-schema = "1.5"
cosmwasm-std = { version = "1.5", features = ["stargate"] }
cw-ownable = "0.5"
cw-storage-plus = "1.2"
cw2 = "1.1"
hex = "0.4"
prost = "0.12"
schemars = "0.8"
semver = "1.0"
serde = { version = "1.0", default-features = false, features = ["derive"] }
serde-json-wasm = "1.0"
sha2 = "0.10"
thiserror = "1.0"
