[package]
name = "webtor"
version = "0.1.0"
edition = "2021"
publish = false

[dependencies]
tor-netdoc = "*"
tor-checkable = "*"
url = "*"

[dev-dependencies]
hex = "*"
