[package]
name = "chip8"
version = "0.1.0"
edition = "2021"
publish = false

[dependencies]
rand = "0.7"
arrayvec = "0.5"
lazy_static = "1.4"
sfml = "0.15"
