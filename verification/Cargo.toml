[package]
name = "sixtyfps_gl_backend"
version = "0.1.0"
edition = "2021"
publish = false

[dependencies]
by_address = "*"
femtovg = "*"
font-kit = "*"
fontdb = "*"
glutin = "*"
imgref = "*"
rgb = "*"
winit = "*"
