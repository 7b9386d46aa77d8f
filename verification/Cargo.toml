[package]
name = "playback_session"
version = "0.1.0"
edition = "2021"
publish = false

[dependencies]
gstreamer = "0.15"
gstreamer-video = "0.15"
gtk = "0.8"
gdk = "0.12"
glib = "0.9"
