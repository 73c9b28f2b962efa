[package]
name = "pq_facade"
version = "0.1.0"
edition = "2021"
publish = false

[dependencies]
pqcrypto-falcon = "*"
pqcrypto-kyber = "*"
pqcrypto-traits = "*"
pyo3 = { version = "0.22", features = ["extension-module", "abi3-py38"] }
