[package]
name = "sign_firmware"
version = "0.1.0"
edition = "2021"
publish = false

[dependencies]
anyhow = "*"
semver = "*"
serde = { version = "*", features = ["derive"] }
serde_json = "*"
url = "*"
