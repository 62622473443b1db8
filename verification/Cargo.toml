[package]
name = "freemdu-gui"
version = "0.1.0"
edition = "2021"
publish = false

[dependencies]
anyhow = "=1.0.104"
eframe = { version = "0.31.1", default-features = false, features = ["glow", "default_fonts", "x11"] }
egui = "0.31.1"
env_logger = "=0.11.11"
freemdu = { version = "=0.1.0", features = ["native-serial"] }
log = "=0.4.34"
serialport = { version = "=4.10.1", default-features = false }
tokio = { version = "=1.54.1", features = ["rt", "time"] }
