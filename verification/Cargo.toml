[package]
name = "tinlib"
version = "0.1.0"
edition = "2021"
publish = false

[dependencies]
anyhow = "1"
byteorder = "1"
env_logger = "0.11"
log = "0.4"
pixels = "*"
thiserror = "1"
winit = "0.30"
