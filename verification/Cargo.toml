[package]
name = "pathtracer"
version = "0.1.0"
edition = "2021"
publish = false

[dependencies]
enum_dispatch = "0.3"
float-ord = "0.3"
glam = "*"
picture = "*"
rand = { version = "0.8", features = ["small_rng"] }
rayon = "1"
