[package]
name = "regtest_opener"
version = "0.1.0"
edition = "2021"
publish = false

[dependencies]
bitcoin = "0.32"
serde_json = "1"
