[package]
name = "emulator"
version = "0.1.0"
edition = "2021"
publish = false

[dependencies]
clap = { version = "3.1", features = ["derive", "cargo"] }
cpal = "0.13"
pollster = "0.2"
ringbuf = "=0.2.8"
wgpu = { version = "0.12", features = ["spirv"] }
winit = "0.26"
