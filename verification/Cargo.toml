[package]
name = "bevy_pixels"
version = "0.14.0"
edition = "2021"
publish = false

[dependencies]
bevy = { version = "=0.14.2", default-features = false }
pixels = "0.15"
pollster = "=0.3.0"
