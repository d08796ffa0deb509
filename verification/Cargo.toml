[package]
name = "engine_core"
version = "0.1.0"
edition = "2021"
publish = false

[dependencies]
flecs_ecs = "*"
vulkano = "0.35"
vulkano-shaders = "0.35"
vulkano-util = "0.35"
winit = "0.30"
