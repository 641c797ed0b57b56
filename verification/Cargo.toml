[package]
name = "cube_demo"
version = "0.1.0"
edition = "2021"
publish = false

[dependencies]
eframe = { version = "=0.22.0", default-features = false, features = ["glow"] }
three-d = { version = "=0.16.4", default-features = false }
