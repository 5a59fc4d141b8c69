[package]
name = "screen_effects"
version = "0.1.0"
edition = "2021"
publish = false

[dependencies]
bevy = { version = "0.17", default-features = false, features = ["bevy_render", "bevy_core_pipeline", "bevy_asset"] }
bytemuck = { version = "1", features = ["derive"] }
