[package]
name = "emg"
version = "0.1.0"
edition = "2021"
publish = false

[dependencies]
nalgebra = "*"
serde_json = "*"
