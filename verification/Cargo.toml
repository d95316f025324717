[package]
name = "async-jsonrpc-client"
version = "0.1.0"
edition = "2021"
publish = false

[dependencies]
jsonrpc-core = "=10.1.0"
serde = "=1.0.229"
serde_json = "=1.0.154"
futures = "=0.1.31"
tokio = "=0.1.22"
tokio-codec = "=0.1.2"
parking_lot = "=0.7.1"
log = "=0.4.35"
