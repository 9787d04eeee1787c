[package]
name = "crosshair_overlay"
version = "0.1.0"
edition = "2021"
publish = false

[dependencies]
egui = "0.27"
tray-item = "0.10"
winapi = { version = "0.3", features = ["winuser"] }
