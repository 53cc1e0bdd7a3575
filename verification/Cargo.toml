[package]
name = "memory_practice"
version = "0.1.0"
edition = "2021"
publish = false

[dependencies]
chrono = "0.4"
rand = "0.8"
sra = "*"
rusqlite = { version = "*", features = ["bundled"] }
clap = { version = "4", features = ["derive"] }
colored = "*"
env_logger = "*"
log = "0.4"
eframe = { version = "*", default-features = false, features = ["default_fonts", "glow", "x11"] }
