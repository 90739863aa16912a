[package]
name = "wasm_vault"
version = "0.1.0"
edition = "2021"
publish = false

[dependencies]
cosmwasm-std = { version = "=3.0.10", features = ["staking", "stargate", "cosmwasm_1_4"] }
cosmwasm-schema = "=3.0.10"
thiserror = "2"
