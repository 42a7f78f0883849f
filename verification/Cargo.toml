[package]
name = "preview1_adapter"
version = "0.1.0"
edition = "2021"
publish = false

[dev-dependencies]
wasi = { version = "0.11", default-features = false }
