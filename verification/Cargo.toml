[package]
name = "smolhttp"
version = "0.1.0"
edition = "2021"
publish = false

[dependencies]
minihttpse = "*"
miniurl = "*"
native-tls = "*"
