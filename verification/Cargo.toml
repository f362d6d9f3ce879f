[package]
name = "camera_settings"
version = "0.1.0"
edition = "2021"
publish = false

[dependencies]
aperture = "0.9"
glib = "*"
gtk4 = "*"
libadwaita = { version = "*", features = ["v1_4"] }
log = "=0.4.34"
v4l = "=0.14.0"
