[package]
name = "ws63-flash-algorithm"
version = "0.2.0"
edition = "2021"
publish = false

[dependencies]
flash-algorithm = { version = "=0.7.0", default-features = false, features = ["verify"] }
