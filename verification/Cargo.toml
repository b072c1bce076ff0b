[package]
name = "game_renderer"
version = "0.1.0"
edition = "2021"
publish = false

[dependencies]
bytemuck = { version = "=1.25.2", features = ["derive"] }
cgmath = "=0.18.0"
clap = "=2.34.0"
futures = "=0.3.34"
log = "=0.4.35"
log4rs = "=1.4.0"
wgpu = "=0.6.2"
winit = "=0.23.0"
