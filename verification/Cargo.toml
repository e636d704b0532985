[package]
name = "cam_record_sim"
version = "0.1.0"
edition = "2021"
publish = false

[dependencies]
chrono = "=0.4.45"
glib = "0.20"
gstreamer = "0.23"
gstreamer-app = "0.23"
gtk4 = "0.9"
thiserror = "=2.0.21"
