[package]
name = "stacks_signer"
version = "0.1.0"
edition = "2021"
publish = false

[dependencies]
wsts = "*"
rusqlite = { version = "*", features = ["bundled"] }
serde = { version = "*", features = ["derive"] }
serde_json = "*"
backoff = "*"
