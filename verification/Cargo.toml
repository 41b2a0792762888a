[package]
name = "zarrista"
version = "0.1.0"
edition = "2021"
publish = false

[dependencies]
zarrs = { version = "=0.23.14", features = ["bitround", "async"] }
pyo3 = { version = "=0.30.1", features = ["multiple-pymethods"] }
pyo3-bytes = "=0.8.0"
bytes = "=1.12.1"
half = "=2.7.1"
num-complex = "=0.4.6"
serde_json = "=1.0.154"
thiserror = "=2.0.21"
dlpark = { version = "=0.10.0", features = ["pyo3"] }
pyo3-async-runtimes = { version = "=0.30.0", features = ["tokio-runtime"] }
tokio-rayon = "=2.1.0"
arrow-array = "=59.3.2"
arrow-buffer = "=59.3.2"
arrow-schema = "=59.3.2"
pyo3-arrow = "=0.20.0"
