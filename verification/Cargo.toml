[package]
name = "superpower"
version = "0.1.0"
edition = "2021"
publish = false

[dependencies]
regex = "1"
vte = "0.13"
serde = { version = "1", features = ["derive"] }
toml = "0.8"
portable-pty = "0.8"
tracing = "0.1"
tracing-subscriber = "0.3"
winit = "0.30"
wgpu = "23"
pollster = "0.4"
bytemuck = { version = "1", features = ["derive"] }
fontdue = "0.9"
ttf-parser = "0.24"
arboard = "3"
windows = { version = "0.58", features = ["Win32_Foundation", "Win32_Graphics_DirectWrite"] }
