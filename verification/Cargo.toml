[package]
name = "kairon"
version = "0.1.0"
edition = "2021"
publish = false

[dependencies]
winit = "=0.30.13"
wgpu = "=28.0.0"
egui = "=0.33.3"
egui_wgpu_backend = "=0.36.0"
egui_demo_lib = "=0.33.3"
log = "=0.4.34"
env_logger = "=0.11.11"
