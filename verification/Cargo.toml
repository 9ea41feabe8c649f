[package]
name = "meshview"
version = "0.1.0"
edition = "2021"
publish = false

[dependencies]
wgpu = "=0.3.0"
tobj = "=0.1.12"
glsl-to-spirv = "=0.1.7"
winit = "=0.20.0-alpha3"
raw-window-handle = "=0.1.2"
