[package]
name = "handlebarrz"
version = "0.1.0"
edition = "2021"
publish = false

[dependencies]
handlebars = "=6.4.4"
pyo3 = { version = "=0.25.1", features = ["extension-module", "abi3-py39"] }
serde = "=1.0.229"
serde_json = { version = "=1.0.154", features = ["preserve_order"] }
