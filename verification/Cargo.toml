[package]
name = "rust_boids"
version = "0.1.0"
edition = "2021"
publish = false

[dependencies]
bevy = { version = "0.6", default-features = false, features = ["bevy_winit", "render", "png", "x11"] }
rand = "0.8"
