[package]
name = "swap"
version = "0.1.0"
edition = "2021"
publish = false

[dependencies]
bitcoin = "*"
miniscript = "*"
rand = "*"
uuid = { version = "*", features = ["v4"] }
