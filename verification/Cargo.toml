[package]
name = "ledzilla_server"
version = "0.1.0"
edition = "2021"
publish = false

[dependencies]
colorgrad = "0.7"
image = { version = "0.25", default-features = false, features = ["png", "gif"] }
chrono = "0.4"
embedded-graphics = "0.8"
u8g2-fonts = { version = "*", features = ["embedded_graphics_textstyle"] }
glam = "*"
serde = { version = "1", features = ["derive"] }
serde_json = "1"
serde_with = "3"
toml = "*"
rouille = "3"
log = "0.4"
simple_logger = "*"
time = { version = "0.3", features = ["macros", "formatting"] }
strum = "*"
strum_macros = "*"
thiserror = "2"
anyhow = "1"
rpi-led-panel = "*"
embedded-graphics-simulator = "*"
