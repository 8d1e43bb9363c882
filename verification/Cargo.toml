[package]
name = "yagl"
version = "0.1.0"
edition = "2021"
publish = false

[dependencies]
a2d = "=0.1.11"
anyhow = "=1.0.104"
bytemuck = "=1.25.2"
cgmath = "=0.17.0"
futures = "=0.3.34"
gfx-backend-vulkan = "=0.5.11"
gfx-hal = "=0.5.3"
gilrs = "=0.7.4"
image = "=0.23.14"
simple_logger = "=1.16.0"
wgpu = "=0.5.2"
winit = "=0.22.2"
