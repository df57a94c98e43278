[package]
name = "path_tracer"
version = "0.1.0"
edition = "2021"
publish = false

[dependencies]
rand = "0.8"
image = "0.24"
indicatif = { version = "0.17", features = ["rayon"] }
rayon = "1"
