[package]
name = "eww_dock"
version = "0.1.0"
edition = "2021"
publish = false

[dependencies]
freedesktop-desktop-entry = { version = "=0.8.3", default-features = false }
freedesktop-icons = "=0.4.0"
xdg = "=3.0.0"

[dev-dependencies]
serde_json = "=1.0.151"
