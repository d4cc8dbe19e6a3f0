[package]
name = "clearframe"
version = "0.1.0"
edition = "2021"
publish = false

[dependencies]
winit = { version = "=0.29.15", default-features = false, features = ["rwh_06", "x11"] }
log = "=0.4.34"
env_logger = "=0.11.11"
