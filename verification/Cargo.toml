[package]
name = "shard_iterator"
version = "0.1.0"
edition = "2021"
publish = false

[dependencies]
anyhow = "1"
scylla = "0.12"
tokio = { version = "1", default-features = false, features = ["rt", "sync"] }
tracing = "0.1"
