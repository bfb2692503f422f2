[package]
name = "embedding_generator"
version = "0.1.0"
edition = "2021"
publish = false

[dependencies]
anyhow = "1"
oneshot = "0.1"
rust-bert = "*"
thiserror = "1"
tracing = "0.1"
