[package]
name = "smallest_polygon_cover"
version = "0.1.0"
edition = "2021"
publish = false

[dependencies]
rand = "0.9"
serde = { version = "1", features = ["derive"] }
strum = "0.27"
strum_macros = "0.27"
egui = "0.31"
egui_plot = "0.31"
eframe = { version = "0.31", default-features = false, features = ["glow", "x11", "persistence", "default_fonts"] }
