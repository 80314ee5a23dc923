[package]
name = "njord"
version = "0.1.0"
edition = "2021"
publish = false

[dependencies]
anyhow = "1"
crossbeam-channel = "0.5"
ctrlc = "3"
rppal = "*"
serde = { version = "1", features = ["derive"] }
serde_yaml = "0.9"
