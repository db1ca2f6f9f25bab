[package]
name = "solstream"
version = "0.1.0"
edition = "2021"
publish = false

[dependencies]
bs58 = "*"
base64 = "*"
