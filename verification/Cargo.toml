[package]
name = "gpu_bootstrap"
version = "0.1.0"
edition = "2021"
publish = false

[dependencies]
ash = "*"
anyhow = "1"
