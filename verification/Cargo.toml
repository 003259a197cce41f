[package]
name = "payment_gateway"
version = "0.1.0"
edition = "2021"
publish = false

[dependencies]
sled = "0.34"
thiserror = "1"
tokio = { version = "1", default-features = false, features = ["time", "sync"] }
web3 = { version = "0.19", default-features = false, features = ["http"] }
