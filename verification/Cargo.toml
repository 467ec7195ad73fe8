[package]
name = "camera_projection"
version = "0.1.0"
edition = "2021"
publish = false

[dependencies]
rustc_apfloat = "*"
bevy_math = "*"
serde = { version = "*", features = ["derive"] }
