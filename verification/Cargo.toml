[package]
name = "edgebench"
version = "0.1.0"
edition = "2021"
publish = false

[dependencies]
opencv = { version = "*", default-features = false, features = ["imgcodecs", "imgproc"] }
