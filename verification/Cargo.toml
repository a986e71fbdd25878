[package]
name = "spaceapi-dezentrale-server"
version = "0.9.0"
edition = "2021"
publish = false

[dependencies]
log = "0.4"
rocket = { version = "0.5", features = ["json"] }
spaceapi-dezentrale = "*"
