[package]
name = "saddle-rendering-toon-shader"
version = "0.1.0"
edition = "2021"
publish = false

[dependencies]
bevy = { version = "0.17", default-features = false, features = ["bevy_pbr", "bevy_scene"] }
