[package]
name = "opencarpanel"
version = "0.1.0"
edition = "2021"
publish = false

[dependencies]
serde = { version = "1", features = ["derive"] }
serde_json = "1"
schemars = "1"
semver = "1"
base64 = "0.22"
sha2 = "0.10"
atomic-write-file = "0.2"
wasmi = "*"
