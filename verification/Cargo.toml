[package]
name = "taskbridge"
version = "0.1.0"
edition = "2021"
publish = false

[dependencies]
mio-extras = "2"
carrier = "*"
env_logger = "*"
prost = "*"
