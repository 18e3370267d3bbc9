[package]
name = "wgpu_graphics"
version = "0.1.0"
edition = "2021"
publish = false

[dependencies]
bytemuck = { version = "=1.25.2", features = ["derive"] }
image = { version = "=0.25.10", default-features = false, features = ["png", "jpeg"] }
piston-texture = "=0.9.0"
piston2d-graphics = { version = "=0.45.0", features = ["glyph_cache_rusttype"] }
wgpu = "=26.0.1"
