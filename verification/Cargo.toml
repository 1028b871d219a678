[package]
name = "desert_shooter_engine"
version = "0.1.0"
edition = "2021"
publish = false

[dependencies]
serde = { version = "1", features = ["derive"] }
serde_json = "1"
glam = { version = "*", features = ["serde"] }
log = "0.4"
env_logger = "*"
mlua = { version = "*", features = ["lua54", "vendored"] }
