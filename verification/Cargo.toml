[package]
name = "sglang-server"
version = "0.1.0"
edition = "2021"
publish = false

[dependencies]
async-stream = "0.3"
axum = "0.7"
bytes = "1"
core_affinity = "0.8"
dynamo-protocols = "*"
flume = "0.11"
futures = "0.3"
http = "1"
prost = "0.13"
pyo3 = { version = "*", features = ["abi3-py310"] }
rmp-serde = "1"
serde = { version = "1", features = ["derive"] }
serde_json = "1"
thiserror = "2"
tokio = { version = "1", features = ["rt-multi-thread", "sync", "time", "net", "macros"] }
tokio-stream = { version = "0.1", features = ["net"] }
tonic = "0.12"
tracing = "0.1"
