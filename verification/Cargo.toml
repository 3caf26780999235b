[package]
name = "retheme"
version = "0.4.7"
edition = "2021"
publish = false

[dependencies]
chacha20poly1305 = "0.10"
ed25519-dalek = "2"
hex = "0.4"
rand_core = { version = "0.6", features = ["getrandom"] }
semver = "1"
serde = { version = "1", features = ["derive"] }
serde_json = "1"
sha2 = "0.10"
tempfile = "3"
