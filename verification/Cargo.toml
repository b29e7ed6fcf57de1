[package]
name = "sguaba"
version = "0.1.0"
edition = "2021"
publish = false

[dependencies]
uom = { version = "=0.38.0", features = ["use_serde"] }
nalgebra = { version = "=0.35.0", features = ["serde-serialize"] }
typenum = "=1.20.1"
approx = "=0.5.1"
serde = { version = "=1.0.229", features = ["derive"] }
