[package]
name = "color_chain"
version = "0.1.0"
edition = "2021"
publish = false

[dependencies]
ethers = { version = "=2.0.14", default-features = false, features = ["abigen"] }
ethers-contract = { version = "=2.0.14", default-features = false, features = ["abigen"] }
futures = { version = "0.3", default-features = false, features = ["std"] }
gdnative = { version = "0.11", features = ["async"] }
serde = { version = "1", features = ["derive"] }
serde_json = "1"
tokio = { version = "1", features = ["rt", "macros"] }
