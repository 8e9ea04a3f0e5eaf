[package]
name = "qdrant-embedded"
version = "0.1.0"
edition = "2021"
publish = false

[dependencies]
tokio = { version = "1", features = ["rt-multi-thread"] }
thiserror = "2"
reqwest = { version = "0.12", default-features = false }
