[package]
name = "muloom_gpu"
version = "0.1.0"
edition = "2021"
publish = false

[dependencies]
wgpu = "0.19"
pollster = "0.3"
anyhow = "1"
