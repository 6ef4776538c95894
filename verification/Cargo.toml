[package]
name = "pollbridge"
version = "0.1.0"
edition = "2021"
publish = false

[dependencies]
sha3 = "*"
argh = "*"
async-std = { version = "*", features = ["attributes"] }
futures-timer = "*"
