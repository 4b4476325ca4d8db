[package]
name = "anvil_reth_bridge"
version = "0.1.0"
edition = "2021"
publish = false

[dependencies]
alloy-primitives = "=1.7.3"
alloy-eips = { version = "=1.8.3", default-features = false, features = ["std"] }
alloy-consensus = { version = "=1.8.3", default-features = false, features = ["std", "k256"] }
