[package]
name = "planet_simulator"
version = "0.1.0"
edition = "2021"
publish = false

[dependencies]
async-trait = ">=0.1.50, <0.1.67"
bevy = { version = "=0.7.0", default-features = false, features = ["render", "bevy_winit", "x11"] }
bevy-inspector-egui = "=0.11.0"
