[package]
name = "quotify"
version = "0.1.0"
edition = "2021"
publish = false

[dependencies]
serde = { version = "*", features = ["derive"] }
serde_json = "*"
tempfile = "*"
reqwest = { version = "*", default-features = false, features = ["blocking", "multipart"] }
