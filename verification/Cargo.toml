[package]
name = "model_viewer"
version = "0.1.0"
edition = "2021"
publish = false

[dependencies]
tobj = "*"
image = { version = "*", default-features = false, features = ["png"] }
bytemuck = "*"
glow = "*"
glam = "*"
rayon = "*"
glutin = "0.32"
winit = "0.30"
raw-window-handle = "0.6"
