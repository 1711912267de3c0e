[package]
name = "menfis"
version = "0.1.0"
edition = "2021"
publish = false

[dependencies]
ropey = "=1.6.1"
encoding_rs = "=0.8.44"
winit = { version = "=0.30.13", default-features = false, features = ["x11", "wayland", "wayland-dlopen", "rwh_06"] }
wgpu = { version = "=22.1.0", default-features = false, features = ["wgsl"] }
glyphon = "0.6"
pollster = "=0.3.0"
env_logger = { version = "=0.11.11", default-features = false }
log = "=0.4.35"
bytemuck = { version = "=1.25.2", features = ["derive"] }
arboard = { version = "=3.7.0", default-features = false }
