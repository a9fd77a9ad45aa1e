[package]
name = "synscan"
version = "0.1.0"
edition = "2021"

[dependencies]
serialport = { version = "4", default-features = false }
