[package]
name = "lve_engine"
version = "0.1.0"
edition = "2021"
publish = false

[dependencies]
ash = "0.33"
ash-window = "0.7"
winit = "0.25"
nalgebra = "0.29"
ordered-float = "2"
tobj = "3"
log = "0.4"
env_logger = "0.9"
