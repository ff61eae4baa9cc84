[package]
name = "galaxy_sim"
version = "0.1.0"
edition = "2021"
publish = false

[dependencies]
wgpu = "0.15"
winit = "0.28"
cgmath = "0.18"
rand = "0.8"
pollster = "0.2"
log = "0.4"
env_logger = "0.10"
