[package]
name = "index_cache"
version = "0.1.0"
edition = "2021"
publish = false

[dependencies]
moka = { version = "0.11", features = ["sync"] }
