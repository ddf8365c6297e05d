[package]
name = "famcache"
version = "0.1.0"
edition = "2021"
publish = false

[dependencies]
anyhow = "1"
tokio = { version = "1", features = ["sync", "net", "io-util", "rt-multi-thread", "macros"] }
uuid = { version = "1", features = ["v4"] }
