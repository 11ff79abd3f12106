[package]
name = "kinnector_config"
version = "0.1.0"
edition = "2021"
publish = false

[dependencies]
ed25519-dalek = "2"
flatbuffers = "*"
libc = "0.2"
serde = { version = "1", features = ["derive"] }
serde_json = "1"
