[package]
name = "sprite_render"
version = "0.1.0"
edition = "2021"
publish = false

[dependencies]
radsort = "*"
image = { version = "0.25", default-features = false, features = ["png"] }
bytemuck = { version = "1", features = ["derive"] }
glam = { version = "*", features = ["bytemuck"] }
log = "*"
env_logger = "*"
pollster = "*"
wgpu = "24"
winit = "0.30"
