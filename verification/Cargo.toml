[package]
name = "plantrig"
version = "0.1.0"
edition = "2021"
publish = false

[dependencies]
gpio-cdev = "*"
async-std = { version = "*", features = ["attributes"] }
base64 = "*"
anyhow = "*"
serde = { version = "*", features = ["derive"] }
serde_json = "*"
toml = "*"
tide = "*"
clap = { version = "*", features = ["derive"] }
futures-lite = "*"
