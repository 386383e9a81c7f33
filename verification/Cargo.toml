[package]
name = "rdpclient"
version = "0.1.0"
edition = "2021"
publish = false

[dependencies]
rdp-rs = "*"
libc = "0.2"
lazy_static = "1"
