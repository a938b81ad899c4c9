[package]
name = "scene_renderer"
version = "0.1.0"
edition = "2021"
publish = false

[dependencies]
anyhow = "=1.0.104"
bytemuck = { version = "=1.25.2", features = ["derive"] }
cfg-if = "=1.0.5"
glam = "=0.30.10"
image = { version = "=0.25.10", default-features = false, features = ["png", "jpeg"] }
instant = "=0.1.13"
pollster = "=1.0.1"
reqwest = { version = "=0.12.28", default-features = false }
tobj = { version = "=4.0.5", features = ["async"] }
wasm-bindgen = "=0.2.129"
wasm-bindgen-futures = "=0.4.79"
web-sys = { version = "=0.3.106", features = ["Document", "Element", "HtmlCanvasElement", "HtmlCollection", "Location", "Node", "Window"] }
wgpu = "=24.0.5"
winit = "=0.30.13"
