[package]
name = "connectorx"
version = "0.1.0"
edition = "2021"
publish = false

[dependencies]
anyhow = "=1.0.104"
chrono = "=0.4.45"
fehler = "=1.0.0"
numpy = "=0.30.0"
pyo3 = "=0.30.1"
serde_json = "=1.0.154"
snowflake-connector-rs = "=0.9.0"
sqlparser = "=0.63.0"
thiserror = "=1.0.69"
tokio = { version = "=1.54.1", features = ["rt-multi-thread"] }
url = "=2.5.8"
