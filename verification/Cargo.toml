[package]
name = "openal"
version = "0.1.0"
edition = "2021"
publish = false

[dependencies]
nalgebra = "=0.35.0"
serde = { version = "=1.0.229", features = ["derive"] }
lazy_static = "=1.5.1"
