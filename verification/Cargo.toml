[package]
name = "voxel_vegetables"
version = "0.1.0"
edition = "2021"
publish = false

[dependencies]
bevy = { version = "=0.12.1", default-features = false }
image = { version = "0.24", default-features = false, features = ["png"] }
noise = "0.8"
webbrowser = "0.8"
