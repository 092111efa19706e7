[package]
name = "liquid_staking"
version = "0.1.0"
edition = "2021"
publish = false

[dependencies]
cosmwasm-std = "*"
cosmos-sdk-proto = "*"
prost = "*"
serde = { version = "*", features = ["derive"] }
