[package]
name = "erc6551"
version = "0.1.0"
edition = "2021"
publish = false

[dependencies]
sha3 = "0.10"
alloy-primitives = { version = "0.8", default-features = false, features = ["std"] }
ethers-core = { version = "2", default-features = false }
