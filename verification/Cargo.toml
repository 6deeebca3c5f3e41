[package]
name = "ray_tracing"
version = "0.1.0"
edition = "2021"
publish = false

[dependencies]
rand = "=0.8.8"
scoped_threadpool = "=0.1.9"
image = { version = "=0.24.9", default-features = false, features = ["png", "jpeg"] }
softbuffer = "=0.3.4"
winit = { version = "=0.29.15", features = ["rwh_05"] }
