[package]
name = "sabiboy"
version = "0.1.0"
edition = "2021"
publish = false

[dependencies]
serde = { version = "=1.0.229", features = ["derive"] }
serde_json = "1"
bincode = "=1.3.3"
anyhow = "=1.0.104"
log = "=0.4.35"
env_logger = "=0.11.11"
minifb = "=0.29.0"
minifb_fonts = "*"
cpal = "=0.18.2"
