[package]
name = "libdmg"
version = "0.1.0"
edition = "2021"
publish = false

[dependencies]
clap = "3"
env_logger = "*"
winit = "0.28"
