[package]
name = "deckwatch-plugin-aws"
version = "0.1.0"
edition = "2021"
publish = false

[dependencies]
sha2 = "0.10"
hmac = "0.12"
serde_json = "1"
serde = { version = "1", features = ["derive"] }
extism-pdk = "1"
