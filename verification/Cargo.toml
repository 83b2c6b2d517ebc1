[package]
name = "dnclip"
version = "0.1.0"
edition = "2021"
publish = false

[dependencies]
serde_json = "=1.0.154"
serde = { version = "=1.0.229", features = ["derive"] }
anyhow = "=1.0.104"
log = "=0.4.35"
env_logger = { version = "=0.11.11", default-features = false, features = ["humantime"] }
eframe = { version = "=0.36.2", default-features = false, features = ["default_fonts", "glow", "x11"] }
egui_alignments = "=0.3.9"
egui-file-dialog = { version = "=0.15.0", default-features = false }
raw-window-handle = "=0.6.2"
x11-dl = "=2.21.0"
