[package]
name = "just_business"
version = "0.1.0"
edition = "2021"
publish = false

[dependencies]
bevy = { version = "=0.14.2", default-features = false, features = ["bevy_asset", "bevy_color", "bevy_state"] }
bevy_input = "=0.14.2"
bevy_tweening = { version = "=0.11.0", default-features = false }
