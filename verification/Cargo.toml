[package]
name = "mouse_mover"
version = "0.1.0"
edition = "2021"
publish = false

[dependencies]
core-graphics = "*"
