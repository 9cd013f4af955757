[package]
name = "brew"
version = "0.1.0"
edition = "2021"
publish = false

[dependencies]
command-builder = "*"
serde = { version = "1", features = ["derive"] }
serde_json = "1"
version-rs = "*"
