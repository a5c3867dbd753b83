[package]
name = "sceneview"
version = "0.1.0"
edition = "2021"
publish = false

[dependencies]
anyhow = "1"
bytemuck = { version = "1", features = ["derive"] }
egui = "0.19"
egui-wgpu = "0.19"
egui-winit = "0.19"
env_logger = "0.10"
json = "0.12"
lyon = "1"
lyon_geom = "1"
pollster = "0.2"
wgpu = "0.13"
winit = "0.27"
