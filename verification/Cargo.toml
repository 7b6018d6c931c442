[package]
name = "tldhax"
version = "0.1.0"
edition = "2021"
publish = false

[dependencies]
idna = "1"
pyo3 = { version = "*", features = ["abi3-py310"] }
