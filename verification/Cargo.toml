[package]
name = "gpu_readback"
version = "0.1.0"
edition = "2021"
publish = false

[dependencies]
env_logger = "=0.10.2"
pollster = "=0.3.0"
wgpu = "=0.17.2"
