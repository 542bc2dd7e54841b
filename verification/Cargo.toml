[package]
name = "transcoder"
version = "0.1.0"
edition = "2021"
publish = false

[dependencies]
glib = "=0.6.1"
gstreamer = "=0.12.2"
gstreamer-pbutils = "=0.12.2"
