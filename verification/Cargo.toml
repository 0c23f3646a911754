[package]
name = "anypm"
version = "0.1.0"
edition = "2021"
publish = false

[dependencies]
fuzzy-matcher = "*"
serde_json = "1"
dialoguer = "*"
