[package]
name = "pentamesh"
version = "0.1.0"
edition = "2021"
publish = false

[dependencies]
wgpu = "22"

[dev-dependencies]
bytemuck = "1"
