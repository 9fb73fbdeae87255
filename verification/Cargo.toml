[package]
name = "desktop_buddy"
version = "0.1.0"
edition = "2021"
publish = false

[dependencies]
eframe = { version = "0.27", default-features = false, features = ["glow"] }
three-d = { version = "0.17", default-features = false }
three-d-asset = { version = "0.7", default-features = false, features = ["gltf"] }
