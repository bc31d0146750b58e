[package]
name = "rust_bert"
version = "0.1.0"
edition = "2021"
publish = false

[dependencies]
rust_tokenizers = "=7.0.2"
serde = { version = "=1.0.229", features = ["derive"] }
serde_json = "=1.0.154"
tch = "=0.8.0"
