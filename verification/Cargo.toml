[package]
name = "math_accelerate"
version = "0.1.0"
edition = "2021"
publish = false

[dependencies]
ocl = "0.19"
