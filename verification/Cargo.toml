[package]
name = "particle_sandbox"
version = "0.1.0"
edition = "2021"
publish = false

[dependencies]
bevy = { version = "0.8", default-features = false, features = ["render", "bevy_winit", "x11"] }
bevy_egui = "0.16"
bevy_rapier2d = "0.16"
libm = "0.2"
rand = "0.8"
