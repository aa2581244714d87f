[package]
name = "bongocat_rs"
version = "0.1.0"
edition = "2021"
publish = false

[dependencies]
dashmap = "=6.2.1"
eframe = { version = "0.31", default-features = false, features = ["default_fonts", "glow", "persistence", "x11"] }
egui = "0.31"
egui_extras = { version = "0.31", default-features = false, features = ["image"] }
enum-map = "=2.7.3"
env_logger = "0.11"
image = { version = "0.25", default-features = false, features = ["png"] }
inputbot = "0.6"
parking_lot = "0.12"
serde = { version = "1", features = ["derive"] }
