[package]
name = "delorean_contracts"
version = "0.1.0"
edition = "2021"
publish = false

[dependencies]
cosmwasm-std = "0.16"
cosmwasm-storage = "0.16"
cosmwasm-vm = { version = "0.16", default-features = false }
cw-storage-plus = "0.9"
cw20 = "0.8"
moneymarket = "0.3"
terra-cosmwasm = "2.2"
schemars = "0.8"
serde = { version = "1.0", default-features = false, features = ["derive"] }
snafu = "0.6"
