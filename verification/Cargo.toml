[package]
name = "chip8"
version = "0.1.0"
edition = "2021"
publish = false

[dependencies]
rand = "0.8"
log = "0.4"
clap = { version = "3.2", features = ["derive"] }
sdl2 = "0.35"
simple_logger = "4"
