[package]
name = "vge"
version = "0.1.0"
edition = "2021"
publish = false

[dependencies]
bytemuck = { version = "1", features = ["derive"] }
image = "0.25"
smol = "2"
thiserror = "1"
tracing = "0.1"
wgpu = "23"
winit = "0.30"
