[package]
name = "hyper_srv"
version = "0.1.0"
edition = "2021"
publish = false

[dependencies]
futures = "0.3"
hyper = { version = "0.14", features = ["client", "http1"] }
tokio = "1"
trust-dns-resolver = "0.23"
