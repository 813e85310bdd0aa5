[package]
name = "resource_pool"
version = "0.1.0"
edition = "2021"
publish = false

[dependencies]
tokio = { version = "1", features = ["sync", "time", "rt", "rt-multi-thread"] }
parking_lot = "0.12"
napi = { version = "*", features = ["async"] }
napi-derive = "*"
