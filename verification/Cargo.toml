[package]
name = "mousepage"
version = "0.1.0"
edition = "2021"
publish = false

[dependencies]
failure = "0.1.8"
inputbot = "0.4.0"
lexpr = "0.2"
serde = { version = "1", features = ["derive"] }
serde_json = "1"
serde-lexpr = "*"
touchpage = "0.2.2"
