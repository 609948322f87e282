[package]
name = "rusty"
version = "0.1.0"
edition = "2021"
publish = false

[dependencies]
glam = "*"
bytemuck = "*"
image = { version = "*", default-features = false, features = ["png"] }
env_logger = { version = "*", default-features = false }
anyhow = "1"
