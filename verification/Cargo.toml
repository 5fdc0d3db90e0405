[package]
name = "drag_n_drop"
version = "0.1.0"
edition = "2021"
publish = false

[dependencies]
bevy = { version = "=0.12.1", default-features = false, features = ["bevy_asset"] }
