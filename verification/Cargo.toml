[package]
name = "amethyst_window"
version = "0.1.0"
edition = "2021"
publish = false

[dependencies]
serde = { version = "=1.0.229", features = ["derive"] }
winit = "=0.30.13"
