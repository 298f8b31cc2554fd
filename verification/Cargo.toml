[package]
name = "croncat"
version = "0.1.0"
edition = "2021"
publish = false

[dependencies]
cosmwasm-std = "1.1"
cosmwasm-schema = "1.1"
cw2 = "0.16"
cw20 = "0.16"
cw721 = "0.16"
schemars = "0.8"
serde = { version = "1", default-features = false, features = ["derive"] }
thiserror = "1"
