[package]
name = "pathtracer"
version = "0.1.0"
edition = "2021"
publish = false

[dependencies]
cgmath = "*"
image = { version = "*", default-features = false, features = ["png"] }
rand = "*"
