[package]
name = "pathtracer_core"
version = "0.1.0"
edition = "2021"
publish = false

[dependencies]
glam = "=0.34.0"
wgpu = "=29.0.4"
winit = "=0.30.13"
imgui = "=0.12.0"
imgui-wgpu = "=0.28.0"
imgui-winit-support = "=0.13.0"
pollster = "=1.0.1"
env_logger = "=0.11.11"
