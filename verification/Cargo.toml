[package]
name = "interactive_drawing"
version = "0.1.0"
edition = "2021"
publish = false

[dependencies]
winit = "0.28"
wgpu = "0.16"
image = "0.24"
imageproc = "0.23"
rusttype = "0.9"
pollster = "0.3"
env_logger = "0.10"
