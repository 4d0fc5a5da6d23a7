[package]
name = "mmd_engine"
version = "0.1.0"
edition = "2021"
publish = false

[dependencies]
glam = "=0.34.1"
mmd = "=0.0.6"
rapier3d = "=0.36.0"
once_cell = "=1.21.4"
bytemuck = "=1.25.2"
