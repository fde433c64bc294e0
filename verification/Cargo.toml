[package]
name = "http_server"
version = "0.1.0"
edition = "2021"
publish = false

[dependencies]
flate2 = "1"
tokio = { version = "1", features = ["macros", "rt-multi-thread", "net", "io-util", "fs"] }
anyhow = "1"
thiserror = "1"
