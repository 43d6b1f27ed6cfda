[package]
name = "turnslate"
version = "0.1.0"
edition = "2021"
publish = false

[dependencies]
fluent-syntax = "*"
serde = { version = "*", features = ["derive"] }
serde_json = "*"
reqwest = { version = "*", default-features = false, features = ["blocking", "json"] }
