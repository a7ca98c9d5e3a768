[package]
name = "pathtracer"
version = "0.1.0"
edition = "2021"
publish = false

[dependencies]
image = "0.22"
nalgebra-glm = "*"
rand = "0.8"
rayon = "1"
