[package]
name = "pylon"
version = "0.1.0"
edition = "2021"
publish = false

[dependencies]
wgpu = "0.13"
raw-window-handle = "0.4"
bytemuck = "1"
tracing = "0.1"
