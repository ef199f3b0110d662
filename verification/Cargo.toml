[package]
name = "chip8"
version = "0.1.0"
edition = "2021"
publish = false

[dependencies]
rand = "0.8"
pixels = "0.15"
winit = "0.30"
winit_input_helper = "0.17"
