[package]
name = "compute_stages"
version = "0.1.0"
edition = "2021"
publish = false

[dependencies]
gfx-hal = "0.4"
glsl-to-spirv = "0.1"
