[package]
name = "draft_kernel"
version = "0.1.0"
edition = "2021"
publish = false

[dependencies]
bytemuck = { version = "1", features = ["derive"] }
glam = "0.28"
log = "0.4"
pollster = "0.3"
web-time = "1"
wgpu = "0.20"
winit = "0.30"
