[package]
name = "ferroboy"
version = "0.1.0"
edition = "2021"
publish = false

[dependencies]
winit = { version = "0.30", default-features = false, features = ["x11", "rwh_06"] }
pixels = { version = "0.15", default-features = false }
