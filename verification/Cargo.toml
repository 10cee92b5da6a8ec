[package]
name = "rsxn_launcher"
version = "0.1.0"
edition = "2021"
publish = false

[dependencies]
strip-ansi-escapes = "=0.2.1"
log = "=0.4.34"
env_logger = "=0.10.2"
opener = "=0.7.2"
serde = { version = "=1.0.229", features = ["derive"] }
serde_json = "=1.0.154"
eframe = { version = "0.27", default-features = false, features = ["glow"] }
