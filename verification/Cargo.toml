[package]
name = "ptls"
version = "0.1.0"
edition = "2021"
publish = false

[dependencies]
rsa = { version = "0.9", features = ["sha2"] }
rand = "0.8"
tokio = { version = "1", features = ["io-util", "sync", "rt", "macros", "time"] }
