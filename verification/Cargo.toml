[package]
name = "skyship"
version = "0.1.0"
edition = "2021"
publish = false

[dependencies]
ggez = "0.6"
mint = "0.5"
serde = { version = "1", features = ["derive"] }
serde_json = "1"
winit = "0.25"
