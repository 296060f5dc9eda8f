[package]
name = "pastebin_client"
version = "0.1.0"
edition = "2021"
publish = false

[dependencies]
futures = "0.3"
reqwest = "0.12"
tokio = { version = "1", features = ["rt-multi-thread"] }
