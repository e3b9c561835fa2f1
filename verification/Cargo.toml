[package]
name = "control_panel"
version = "0.1.0"
edition = "2021"
publish = false

[dependencies]
eframe = { version = "0.31.1", default-features = false, features = ["glow", "default_fonts", "x11"] }
env_logger = "0.11"
log = "0.4"
ordered-float = "5"
poll-promise = "0.3.0"
rfd = { version = "0.15.4", default-features = false, features = ["xdg-portal", "tokio"] }
serde = { version = "1", features = ["derive"] }
serde_json = "1"
tokio = { version = "1", features = ["rt-multi-thread", "macros"] }
