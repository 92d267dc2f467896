[package]
name = "platform_mem"
version = "0.1.0"
edition = "2021"
publish = false

[dependencies]
memmap2 = "*"
tempfile = "*"
tokio = { version = "*", default-features = false, features = ["rt", "fs", "io-util"] }
