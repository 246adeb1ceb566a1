[package]
name = "ghci_writer"
version = "0.1.0"
edition = "2021"
publish = false

[dependencies]
async-dup = "1"
tokio = { version = "1", features = ["io-std", "io-util", "rt"] }
tokio-util = { version = "0.7", features = ["compat"] }
