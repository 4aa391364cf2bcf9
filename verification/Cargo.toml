[package]
name = "mirage_engine"
version = "0.1.0"
edition = "2021"
publish = false

[dependencies]
glam = "0.24"
bytemuck = "1"
uuid = { version = "1", features = ["v4"] }
image = { version = "0.24", default-features = false, features = ["png", "jpeg"] }
chrono = { version = "0.4", default-features = false, features = ["clock"] }
wgpu = "0.17"
winit = "0.28"
tokio = { version = "1", features = ["rt-multi-thread", "macros"] }
anyhow = "1"
log = "0.4"
env_logger = "0.10"
