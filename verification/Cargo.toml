[package]
name = "ruson"
version = "0.1.0"
edition = "2021"
publish = false

[dependencies]
mongodb = "2"
pyo3 = "0.20"
pyo3-asyncio = { version = "0.20", features = ["tokio-runtime"] }
serde = "1"
tokio = { version = "1", features = ["sync"] }
