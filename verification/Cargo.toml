[package]
name = "wavio"
version = "0.1.0"
edition = "2021"
publish = false

[dependencies]
hound = "3.5"
log = "0.4"
numpy = "0.21"
pyo3 = { version = "0.21", features = ["extension-module", "abi3-py38"] }
