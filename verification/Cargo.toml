[package]
name = "billiards"
version = "0.1.0"
edition = "2021"
publish = false

[dependencies]
bevy = { version = "0.8", default-features = false, features = ["bevy_winit", "render", "x11"] }
bevy_rapier2d = "0.16"
