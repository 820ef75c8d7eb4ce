[package]
name = "solarsim"
version = "0.1.0"
edition = "2021"
publish = false

[dependencies]
rand = "*"
minifb = "*"
nalgebra = "*"
nalgebra-glm = "*"
fastnoise-lite = "*"
