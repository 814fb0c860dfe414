[package]
name = "foundation"
version = "0.1.0"
edition = "2021"
publish = false

[dependencies]
cosmwasm-std = "1"
cosmwasm-schema = "1"
cw-utils = "1"
cw3 = "1"
cw3-fixed-multisig = "1"
cw20 = "1"
cw-storage-plus = "1"
serde = "1"
thiserror = "1"
