[package]
name = "vrcbadge_core"
version = "1.0.0"
edition = "2021"
publish = false

[dependencies]
anyhow = "=1.0.104"
log = "=0.4.34"
serde = { version = "=1.0.229", features = ["derive"] }
serde_json = "=1.0.151"
embedded-hal = "=1.0.0"
embedded-graphics-core = "=0.4.1"
mipidsi = "=0.9.0"
gt911 = "=0.3.0"
