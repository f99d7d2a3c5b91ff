[package]
name = "airplane"
version = "0.1.0"
edition = "2021"
publish = false

[dependencies]
anyhow = "1"
bytemuck = "1"
env_logger = "0.11"
glam = "0.33"
pollster = "0.4"
wgpu = "=29.0.4"
winit = "0.30"
