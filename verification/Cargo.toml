[package]
name = "buffer_vec"
version = "0.1.0"
edition = "2021"
publish = false

[dependencies]
wgpu = { version = "=30.0.1", features = ["noop"] }
ultraviolet = "=0.10.0"
winit = { version = "=0.30.13", default-features = false, features = ["x11"] }
