[package]
name = "keyring_plugin"
version = "0.1.0"
edition = "2021"

[dependencies]
base64 = "*"
keyring-core = "*"
serde = { version = "*", features = ["derive"] }
thiserror = "*"
