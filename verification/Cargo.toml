[package]
name = "watersim"
version = "0.1.0"
edition = "2021"
publish = false

[dependencies]
rand = "*"
glow = "*"
sdl2 = "*"
nalgebra-glm = "*"
