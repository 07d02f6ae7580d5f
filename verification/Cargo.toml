[package]
name = "athena_vault"
version = "0.1.0"
edition = "2021"
publish = false

[dependencies]
cosmwasm-std = "0.16"
cosmwasm-storage = "0.16"
schemars = "0.8"
serde = { version = "1.0", features = ["derive"] }
terra-cosmwasm = "2"
