[package]
name = "ceresdb_client"
version = "0.1.0"
edition = "2021"
publish = false

[dependencies]
chrono = "=0.4.31"
horaedb-client = "=2.0.0"
pyo3 = "=0.20.3"
pyo3-asyncio = { version = "=0.20.0", features = ["tokio-runtime"] }
