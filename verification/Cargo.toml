[package]
name = "threedy"
version = "0.1.0"
edition = "2021"
publish = false

[dependencies]
env_logger = "*"
log = "*"
ndarray = "*"
piston_window = "*"
