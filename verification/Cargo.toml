[package]
name = "svg_viewer"
version = "0.1.0"
edition = "2021"
publish = false

[dependencies]
arboard = "=3.7.0"
clap = { version = "=4.6.7", default-features = false, features = ["std", "derive", "help", "usage", "error-context"] }
eframe = { version = "=0.29.1", default-features = false, features = ["default_fonts", "glow", "x11"] }
egui = { version = "=0.29.1", default-features = false }
env_logger = { version = "=0.11.11", default-features = false }
image = { version = "=0.25.10", default-features = false, features = ["png", "jpeg", "bmp", "tiff", "webp"] }
log = "0.4"
natord = "=1.0.9"
resvg = { version = "=0.44.0", default-features = false }
rfd = { version = "=0.15.4", default-features = false, features = ["xdg-portal", "tokio"] }
thiserror = "2"
tiny-skia = "=0.11.4"
usvg = { version = "=0.44.0", default-features = false }
