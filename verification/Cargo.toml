[package]
name = "rust_crypto_example"
version = "0.1.0"
edition = "2021"
publish = false

[dependencies]
secrecy = "0.8"
zeroize = "1"
