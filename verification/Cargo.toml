[package]
name = "complex_lanes"
version = "0.1.0"
edition = "2021"
publish = false

[dependencies]
num-bigfloat = "=1.7.2"
num-traits = "0.2"
