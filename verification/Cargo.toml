[package]
name = "solverforge_bindings"
version = "0.1.0"
edition = "2021"
publish = false

[dependencies]
pyo3 = "*"
serde = { version = "1", features = ["derive"] }
serde_json = "1"
log = "0.4"
