[package]
name = "fluid_sim"
version = "0.1.0"
edition = "2021"
publish = false

[dependencies]
anyhow = "1"
ash = "0.38"
ash-window = "0.13"
bytemuck = { version = "1", features = ["derive"] }
crossbeam-channel = "0.5"
glam = { version = "0.30", features = ["bytemuck"] }
gpu-allocator = "0.27"
rand = "0.9"
winit = "0.30"
