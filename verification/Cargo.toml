[package]
name = "transaction_payload"
version = "0.1.0"
edition = "2021"
publish = false

[dependencies]
saturating = "0.1"
zstd = "0.13"
