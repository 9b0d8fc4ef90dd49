[package]
name = "wavy_rects"
version = "0.1.0"
edition = "2021"
publish = false

[dependencies]
eframe = { version = "=0.23.0", default-features = false, features = ["default_fonts", "persistence", "wgpu", "x11"] }
egui = "=0.23.0"
egui_extras = { version = "=0.23.0", features = ["svg"] }
log = "=0.4.34"
puffin = "=0.17.0"
puffin_egui = "=0.23.0"
serde = { version = "=1.0.229", features = ["derive"] }
