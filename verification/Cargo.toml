[package]
name = "shotmd"
version = "0.1.0"
edition = "2021"
publish = false

[dependencies]
image = { version = "*", default-features = false, features = ["png", "jpeg", "gif"] }
base64 = "*"
webp-animation = "*"
anyhow = "*"
arboard = { version = "*", default-features = false }
clap = { version = "*", features = ["derive"] }
dirs = "*"
eframe = { version = "*", default-features = false, features = ["glow", "x11", "default_fonts"] }
egui = "*"
egui_extras = { version = "*", features = ["image"] }
winit = { version = "*", default-features = false, features = ["x11", "rwh_06"] }
