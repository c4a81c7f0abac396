[package]
name = "a2d"
version = "0.1.0"
edition = "2021"
publish = false

[dependencies]
bytemuck = "1"
futures = "0.3"
image = "0.23"
raw-window-handle = "0.3"
wgpu = "0.5"
winit = "0.22"
