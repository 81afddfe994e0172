[package]
name = "dapla"
version = "0.1.0"
edition = "2021"
publish = false

[dependencies]
borsh = "*"
serde = { version = "*", features = ["derive"] }
serde_json = "*"
