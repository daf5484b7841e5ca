[package]
name = "hash_id"
version = "0.1.0"
edition = "2021"
publish = false

[dependencies]
regress = "*"
serde_json = "*"
reqwest = { version = "*", default-features = false, features = ["blocking"] }
