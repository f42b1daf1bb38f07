[package]
name = "analyzer"
version = "0.1.0"
edition = "2021"
publish = false

[dependencies]
serde_json = "1"
chrono = "0.4"
csv = "1"
serde = { version = "1", features = ["derive"] }
