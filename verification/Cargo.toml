[package]
name = "layerrd"
version = "0.1.0"
edition = "2021"
publish = false

[dependencies]
eframe = { version = "0.33", default-features = false, features = ["wgpu", "default_fonts", "x11", "wayland"] }
egui-wgpu = "0.33"
wgpu = "27"
env_logger = "0.11"
bytemuck = { version = "1", features = ["derive"] }
