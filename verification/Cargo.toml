[package]
name = "libcore2"
version = "0.1.0"
edition = "2021"
publish = false

[dependencies]
cbindgen = { version = "*", default-features = false }
