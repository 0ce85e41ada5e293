[package]
name = "wrangler"
version = "0.1.0"
edition = "2021"
publish = false

[dependencies]
toml = "0.8"
serde_json = "1"
dirs = "*"
reqwest = { version = "0.12", default-features = false, features = ["blocking", "multipart"] }
