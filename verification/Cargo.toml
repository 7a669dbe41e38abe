[package]
name = "frug"
version = "0.1.0"
edition = "2021"
publish = false

[dependencies]
sdl3 = { version = "*", features = ["ttf", "image"] }
