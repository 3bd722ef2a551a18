[package]
name = "cronkitty"
version = "0.1.0"
edition = "2021"
publish = false

[dependencies]
cosmwasm-std = "1"
cosmwasm-schema = "1"
cw-utils = "1"
cw2 = "1"
cw-storage-plus = "1"
croncat-sdk-tasks = "*"
croncat-sdk-manager = "*"
croncat-sdk-factory = "*"
vectis-wallet = "=1.0.0-rc2"
thiserror = "1"
