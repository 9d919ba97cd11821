[package]
name = "mob_sim"
version = "0.1.0"
edition = "2021"
publish = false

[dependencies]
rand = "=0.8.8"
sdl2-sys = { version = "=0.38.0", features = ["image", "ttf"] }
