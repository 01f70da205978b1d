[package]
name = "frame_pacing"
version = "0.1.0"
edition = "2021"
publish = false

[dependencies]
ash = "0.37"
log = "0.4"
simple_logger = "4"
winit = "0.28"
