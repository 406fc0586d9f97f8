[package]
name = "cacache"
version = "0.1.0"
edition = "2021"
publish = false

[dependencies]
nix = { version = "=0.31.3", features = ["fs", "user"] }
serde_json = "=1.0.151"
ssri = "=9.2.0"
