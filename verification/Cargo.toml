[package]
name = "modeling"
version = "0.1.0"
edition = "2021"
publish = false

[dependencies]
anyhow = "=1.0.104"
bytemuck = { version = "=1.25.2", features = ["derive"] }
cgmath = "=0.18.0"
chrono = "=0.4.45"
console_error_panic_hook = "=0.1.7"
console_log = "=0.2.2"
egui = "=0.15.0"
egui_wgpu_backend = "=0.14.0"
egui_winit_platform = "=0.11.0"
env_logger = "=0.9.3"
epi = "=0.15.0"
gltf = "=0.16.0"
image = { version = "=0.23.14", default-features = false, features = ["png", "jpeg"] }
instant = "=0.1.13"
log = "=0.4.34"
structopt = "=0.3.26"
tobj = "=3.2.5"
tokio = { version = "=1.54.1", features = ["rt-multi-thread"] }
wasm-bindgen = "=0.2.129"
wasm-bindgen-futures = "=0.4.79"
web-sys = { version = "=0.3.57", features = ["Document", "Element", "HtmlElement", "Location", "Node", "Window"] }
wgpu = { version = "=0.11.1", features = ["spirv"] }
winit = "=0.25.0"
