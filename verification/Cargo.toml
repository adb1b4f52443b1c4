[package]
name = "computer_mark_up"
version = "0.1.0"
edition = "2021"
publish = false

[dependencies]
bytemuck = { version = "1", features = ["derive"] }
env_logger = "0.10"
hashbrown = "0.13"
image = { version = "0.24", default-features = false, features = ["png", "jpeg"] }
pollster = "0.3"
wgpu = "0.15"
winit = "0.28"
