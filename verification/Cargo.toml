[package]
name = "vsock_proxy"
version = "0.1.0"
edition = "2021"
publish = false

[dependencies]
clap = "4"
tokio = { version = "1", features = ["io-util", "macros", "net", "rt", "rt-multi-thread"] }
tokio-vsock = "*"
