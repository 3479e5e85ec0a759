[package]
name = "orrery"
version = "0.1.0"
edition = "2021"
publish = false

[dependencies]
nalgebra-glm = "*"
fastnoise-lite = "*"
image = { version = "*", default-features = false, features = ["png", "gif"] }
minifb = "*"
