[package]
name = "golem_llm"
version = "0.1.0"
edition = "2021"
publish = false

[dependencies]
serde_json = "*"
sha2 = "*"
hmac = "*"
hex = "*"
base64 = "*"
chrono = { version = "*", default-features = false, features = ["clock"] }
