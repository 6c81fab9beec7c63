[package]
name = "shadertui"
version = "0.1.0"
edition = "2021"
publish = false

[dependencies]
naga = { version = "*", features = ["wgsl-in"] }
wgpu = "*"
winit = "*"
crossterm = "*"
notify = "*"
clap = { version = "*", features = ["derive"] }
pollster = "*"
bytemuck = { version = "*", features = ["derive"] }
flume = "*"
