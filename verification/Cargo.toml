[package]
name = "scene_renderer"
version = "0.1.0"
edition = "2021"
publish = false

[dependencies]
anyhow = "1"
async-std = { version = "1", features = ["attributes"] }
bytemuck = "1"
glam = "0.10"
image = { version = "0.23", default-features = false, features = ["png", "jpeg"] }
tobj = "2"
wgpu = "0.6"
winit = "0.22"
