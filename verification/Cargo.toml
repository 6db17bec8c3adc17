[package]
name = "orbitcam"
version = "0.1.0"
edition = "2021"
publish = false

[dependencies]
wgpu = { version = "25", default-features = false, features = ["wgsl"] }
winit = { version = "0.30", default-features = false, features = ["x11", "rwh_06"] }
pollster = "*"
bytemuck = "*"
log = "*"
env_logger = "*"

[dev-dependencies]
glam = "*"
