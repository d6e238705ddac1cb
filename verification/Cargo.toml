[package]
name = "deferred_frames"
version = "0.1.0"
edition = "2021"
publish = false

[dependencies]
nalgebra-glm = "=0.16.0"
bytemuck = "=1.25.2"
vulkano = "0.29"
vulkano-win = "0.29"
vulkano-shaders = "0.29"
winit = "=0.26.1"
