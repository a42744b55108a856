[package]
name = "rpc_discover"
version = "0.1.0"
edition = "2021"
publish = false

[dependencies]
futures = "0.3"
tokio = { version = "1", features = ["time"] }
tower = { version = "0.4", features = ["discover", "util"] }
tracing = "0.1"
