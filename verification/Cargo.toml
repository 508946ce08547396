[package]
name = "editor_core"
version = "0.1.0"
edition = "2021"
publish = false

[dependencies]
eframe = { version = "*", default-features = false, features = ["glow", "x11", "default_fonts"] }
egui = "*"
rfd = { version = "*", default-features = false, features = ["xdg-portal", "tokio"] }
