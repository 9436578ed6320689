[package]
name = "exopticon"
version = "0.1.0"
edition = "2021"
publish = false

[dependencies]
base64 = "*"
serde = { version = "*", features = ["derive"] }
serde_json = "*"
rmp-serde = "*"
rand = "*"
