[package]
name = "est_gpu"
version = "0.1.0"
edition = "2021"
publish = false

[dependencies]
image = "=0.25.10"
sdl3-sys = { version = "=0.7.2", default-features = false, features = ["no-link"] }
