[package]
name = "panel_notifications"
version = "0.1.0"
edition = "2021"
publish = false

[dependencies]
async-channel = "2"
cascade = "1"
glib = "0.20"
gtk4 = { version = "0.9", features = ["v4_12"] }
gtk4-layer-shell = "*"
libadwaita = "0.7"
