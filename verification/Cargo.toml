[package]
name = "engine_shell"
version = "0.1.0"
edition = "2021"
publish = false

[dependencies]
wgpu = "=30.0.1"
pollster = "=1.0.1"
raw-window-handle = "=0.6.2"
bytemuck = { version = "=1.25.2", features = ["derive"] }
serde = { version = "=1.0.229", features = ["derive"] }
serde_json = "=1.0.151"
sdl3 = { version = "=0.20.0", features = ["raw-window-handle"] }
sdl3-sys = "=0.7.2"
