[package]
name = "imui"
version = "0.1.0"
edition = "2021"
publish = false

[dependencies]
chrono = "0.4"
cgmath = "0.18"
freetype-rs = "*"
glium = "0.31"
image = { version = "0.24", default-features = false, features = ["png", "jpeg"] }
winit = "0.26"
