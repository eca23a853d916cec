[package]
name = "yume"
version = "0.1.0"
edition = "2021"
publish = false

[dependencies]
bytemuck = { version = "1", features = ["derive"] }
clap = "2"
image = { version = "0.24", default-features = false, features = ["png", "jpeg", "gif", "bmp"] }
pollster = "0.2"
walkdir = "2"
wgpu = "0.12"
winit = "0.26"
winit_input_helper = "0.11"
