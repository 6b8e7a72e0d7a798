[package]
name = "homelink"
version = "0.1.0"
edition = "2021"
publish = false

[dependencies]
anyhow = "1"
base64 = "0.21"
dashmap = "5"
rand = "0.7"
rust-crypto = "0.2"
sea-orm = { version = "0.11", default-features = false }
serde = { version = "1", features = ["derive"] }
serde_json = "1"
strum = "0.24"

[dev-dependencies]
hex = "0.4"
