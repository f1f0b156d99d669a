[package]
name = "secp256k1_guest"
version = "0.1.0"
edition = "2021"
publish = false

[dependencies]
k256 = "*"
