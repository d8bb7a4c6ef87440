[package]
name = "finite_difference"
version = "0.1.0"
edition = "2021"
publish = false

[dependencies]
ndarray = "0.15"
rustc_apfloat = "*"
serde = { version = "1", features = ["derive"] }
serde_derive = "1"
serde_yaml = "0.9"
