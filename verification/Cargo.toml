[package]
name = "rust_ssr"
version = "0.1.0"
edition = "2021"
publish = false

[dependencies]
v8 = "*"
