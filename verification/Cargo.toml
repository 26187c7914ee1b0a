[package]
name = "hertz"
version = "0.1.0"
edition = "2021"
publish = false

[dev-dependencies]
libm = "0.2"
