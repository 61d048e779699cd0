[package]
name = "evm_adapters"
version = "0.1.0"
edition = "2021"
publish = false

[dependencies]
ethers = { version = "*", default-features = false }
