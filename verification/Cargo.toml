[package]
name = "derivegr_gui"
version = "0.1.0"
edition = "2021"
publish = false

[dependencies]
serde_json = "=1.0.154"
serde = { version = "=1.0.229", features = ["derive"] }
open = "=5.4.5"
eframe = { version = "0.31", default-features = false, features = ["glow", "x11"] }
