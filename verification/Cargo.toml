[package]
name = "edgecord"
version = "0.1.0"
edition = "2021"
publish = false

[dependencies]
ed25519-dalek = "1"
hex = "0.4"
serde = { version = "1", features = ["derive"] }
serde_json = "1"
