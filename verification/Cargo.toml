[package]
name = "input_capture"
version = "0.1.0"
edition = "2021"
publish = false

[dependencies]
anyhow = "1"
calloop = "0.14"
futures-executor = { version = "0.3", features = ["thread-pool"] }
reis = "*"
tracing = "0.1"
zbus = "5"
