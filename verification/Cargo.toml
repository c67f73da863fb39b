[package]
name = "btc_legacy_scripts"
version = "0.1.0"
edition = "2021"
publish = false

[dependencies]
bitcoin = "*"
