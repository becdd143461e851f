[package]
name = "raytracer"
version = "0.1.0"
edition = "2021"
publish = false

[dependencies]
image = "*"
serde = "*"
serde_derive = "*"
serde_json = "*"
termion = "*"
num-complex = "*"
