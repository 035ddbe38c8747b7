[package]
name = "etracer"
version = "0.1.0"
edition = "2021"
publish = false

[dependencies]
eframe = { version = "*", default-features = false, features = ["glow", "x11"] }
egui = "*"
egui_extras = { version = "*", features = ["image"] }
futures = "*"
image = { version = "*", default-features = false, features = ["png", "jpeg"] }
krilla = "*"
rfd = "*"
