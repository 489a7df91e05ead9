[package]
name = "xchain_client_sdk"
version = "0.1.0"
edition = "2021"
publish = false

[dependencies]
hex = "*"
num-bigint = "*"
