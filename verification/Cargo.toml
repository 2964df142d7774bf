[package]
name = "ostinato"
version = "0.1.0"
edition = "2021"
publish = false

[dependencies]
anyhow = "=1.0.104"
bytemuck = { version = "=1.25.2", features = ["derive"] }
env_logger = "=0.11.11"
glam = "=0.34.1"
log = "=0.4.34"
pollster = "=0.4.0"
rand = "=0.9.5"
rand_distr = "=0.5.1"
serde_yaml = "=0.9.34"
tobj = { version = "=4.0.5", features = ["async"] }
wgpu = "=25.0.2"
winit = "=0.30.13"
