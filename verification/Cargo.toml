[package]
name = "media_shell"
version = "0.1.0"
edition = "2021"
publish = false

[dependencies]
infer = "*"
serde = { version = "*", features = ["derive"] }
egui = "*"
eframe = { version = "*", default-features = false, features = ["glow", "persistence", "x11", "default_fonts"] }
egui_tiles = "*"
egui_taffy = "*"
rfd = "*"
async-std = "*"
