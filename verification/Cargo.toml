[package]
name = "turnsync"
version = "0.1.0"
edition = "2021"
publish = false

[dependencies]
rust-dropbox = "=0.2.8"
toml = "=1.1.6"
serde = "=1.0.229"
serde_derive = "=1.0.229"
serde_json = "=1.0.151"
ureq = "=2.12.1"
