[package]
name = "ed25519_precompile"
version = "0.1.0"
edition = "2021"
publish = false

[dependencies]
ed25519-dalek = "*"
revm = { version = "*", default-features = false, features = ["std"] }
