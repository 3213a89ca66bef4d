[package]
name = "lorawan"
version = "0.1.0"
edition = "2021"
publish = false

[dependencies]
aes = "0.8"
