[package]
name = "rusty_sandbox"
version = "0.1.0"
edition = "2021"
publish = false

[dependencies]
bytemuck = { version = "1", features = ["derive"] }
egui = "0.19"
egui_wgpu_backend = "0.20"
egui_winit_platform = "0.16"
pollster = "0.2"
tracing = "0.1"
tracing-subscriber = "0.3"
vek = "0.15"
wgpu = "0.14"
winit = "0.27"
