[package]
name = "firezone_client"
version = "0.1.0"
edition = "2021"
publish = false

[dependencies]
anyhow = "1"
ipconfig = "0.3"
tokio = { version = "1", features = ["sync", "rt"] }
tracing = "0.1"
winreg = "0.52"
