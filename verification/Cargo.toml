[package]
name = "sha256_core"
version = "0.1.0"
edition = "2021"
publish = false

[dev-dependencies]
sha2 = { version = "=0.10.9", features = ["compress"] }
