[package]
name = "vmrelay"
version = "0.1.0"
edition = "2021"
publish = false

[dependencies]
tokio = { version = "1", features = ["io-util", "macros", "net", "rt", "time"] }
uuid = "1"
