[package]
name = "kadena"
version = "0.2.1"
edition = "2021"
publish = false

[dependencies]
arrayvec = { version = "0.7", default-features = false }
ledger_device_sdk = "*"
