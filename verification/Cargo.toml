[package]
name = "avspeechsynthesizer"
version = "0.4.0"
edition = "2021"
publish = false

[dependencies]
base64 = "0.22"
doom-fish-utils = "*"
serde = { version = "1", features = ["derive"] }
serde_json = "1"
