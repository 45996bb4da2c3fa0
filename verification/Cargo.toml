[package]
name = "arxiv_api"
version = "0.1.0"
edition = "2021"

[dependencies]
feed-rs = "*"
reqwest = { version = "*", default-features = false }
tokio = { version = "*", features = ["macros", "rt-multi-thread"] }
