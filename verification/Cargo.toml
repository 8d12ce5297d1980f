[package]
name = "ublx"
version = "0.1.0"
edition = "2021"
publish = false

[dependencies]
fuzzy-matcher = "0.3.7"
urlencoding = "2.1.3"
serde_json = "1"
serde = { version = "1", features = ["derive"] }
