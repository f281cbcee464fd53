[package]
name = "blobbin"
version = "0.1.0"
edition = "2021"
publish = false

[dependencies]
rand = "0.7"
serde = { version = "1", features = ["derive"] }
serde_json = "1"
anyhow = "1"
log = "0.4"
pixels = "*"
winit = "*"
winit_input_helper = "*"
