[package]
name = "searxng_client"
version = "0.1.0"
edition = "2021"
publish = false

[dependencies]
chrono = { version = "0.4", default-features = false, features = ["std"] }
iso8601 = "0.6"
language-tags = "0.3"
reqwest = { version = "0.12", default-features = false }
serde_json = "1"
smallvec = "1"
