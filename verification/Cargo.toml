[package]
name = "assistant_threads"
version = "0.1.0"
edition = "2021"
publish = false

[dependencies]
derive_builder = "=0.20.2"
serde_json = "=1.0.154"
