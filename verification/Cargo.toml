[package]
name = "bigeye"
version = "0.1.0"
edition = "2021"
publish = false

[dependencies]
gstreamer = "*"
gstreamer-base = "*"
gstreamer-video = "*"
uvc = "*"
