[package]
name = "commodore"
version = "0.1.0"
edition = "2021"
publish = false

[dependencies]
regex = "*"
hyper = "0.10"
url = "1"
