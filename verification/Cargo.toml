[package]
name = "hedgehog"
version = "0.1.0"
edition = "2021"
publish = false

[dependencies]
tokio = { version = "1", features = ["sync", "rt-multi-thread", "time"] }
log = "0.4"
env_logger = "*"
reqwest = "0.11"
mastodon-async = "*"
