[package]
name = "rsa2048_signing"
version = "0.1.0"
edition = "2021"
publish = false

[dependencies]
rsa = "0.5"
rand = "0.8"
