[package]
name = "scene_renderer"
version = "0.1.0"
edition = "2021"
publish = false

[dependencies]
anyhow = "1"
bytemuck = { version = "1", features = ["derive"] }
cfg-if = "1"
cgmath = "0.18"
env_logger = { version = "0.10", default-features = false }
gltf = { version = "1", default-features = false, features = ["utils", "names"] }
image = { version = "0.24", default-features = false, features = ["png", "jpeg"] }
instant = "0.1"
log = "0.4"
tobj = { version = "3.2", features = ["async"] }
wgpu = "0.15"
winit = "0.28"
