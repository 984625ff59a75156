[package]
name = "woa_blog"
version = "0.1.0"
edition = "2021"
publish = false

[dependencies]
chrono = "0.4"
serde_json = { version = "1", features = ["preserve_order"] }
eframe = { version = "0.31", default-features = false, features = ["default_fonts", "glow", "x11"] }
env_logger = "0.11"
image = { version = "0.25", default-features = false, features = ["png"] }
