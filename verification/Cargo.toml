[package]
name = "hello_plugin"
version = "0.1.0"
edition = "2021"
publish = false

[dependencies]
luo9_sdk = "*"
anyhow = "*"
async-trait = "*"
