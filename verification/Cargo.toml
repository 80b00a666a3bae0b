[package]
name = "minecraft"
version = "0.1.0"
edition = "2021"
publish = false

[dependencies]
rand = "0.8"
glam = "*"
bytemuck = { version = "1", features = ["derive"] }
wgpu = "*"
