[package]
name = "exam_blaze"
version = "0.1.0"
edition = "2021"
publish = false

[dependencies]
serde_json = "=1.0.154"
eframe = { version = "=0.24.1", default-features = false, features = ["default_fonts", "glow", "x11"] }
rfd = { version = "=0.12.1", default-features = false, features = ["xdg-portal"] }
env_logger = { version = "=0.11.11", default-features = false }
