[package]
name = "rustmq"
version = "0.1.0"
edition = "2021"
publish = false

[dependencies]
lapin = "*"
futures = "*"
futures-util = "*"
