[package]
name = "ffimage"
version = "0.11.0"
edition = "2021"
publish = false

[dependencies]
num-traits = "0.2"
num = "0.4"
