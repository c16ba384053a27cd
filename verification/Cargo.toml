[package]
name = "bevy_hectic_utils"
version = "0.1.0"
edition = "2021"
publish = false

[dependencies]
bevy_utils = "0.13"
strum = { version = "0.26", features = ["derive"] }
log = "0.4"
env_logger = "0.11"
