[package]
name = "lane_runner"
version = "0.1.0"
edition = "2021"
publish = false

[dependencies]
bevy = { version = "=0.10.1", default-features = false, features = ["animation", "bevy_asset", "bevy_core_pipeline", "bevy_gltf", "bevy_pbr", "bevy_render", "bevy_scene", "bevy_winit", "png", "x11"] }
bevy_rapier3d = "=0.21.0"
bevy-tnua = { version = "=0.4.0", features = ["rapier_3d"] }
noisy_bevy = "=0.3.0"
