[package]
name = "scene_renderer"
version = "0.1.0"
edition = "2021"
publish = false

[dependencies]
base64 = "*"
serde = { version = "1", features = ["derive"] }
serde_json = "1"
sdl2 = { version = "*", features = ["image", "ttf"] }
