[package]
name = "ixkit"
version = "0.1.0"
edition = "2021"
publish = false

[dependencies]
bs58 = "*"
base64 = "*"
ed25519-dalek = "*"
rand = "0.8"
serde = { version = "*", features = ["derive"] }
serde_json = "*"
axum = "*"
tokio = { version = "*", features = ["full"] }
