[package]
name = "bvh"
version = "0.1.0"
edition = "2021"
publish = false

[dependencies]
glam = "*"
nalgebra = { version = "*", default-features = false, features = ["std"] }
