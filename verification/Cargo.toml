[package]
name = "dodgeball"
version = "0.1.0"
edition = "2021"
publish = false

[dependencies]
spacetimedb = "1"
rapier3d = "0.23"
lazy_static = "1"
log = "0.4"
