[package]
name = "cherryrgb"
version = "0.1.0"
edition = "2021"
publish = false

[dependencies]
anyhow = "*"
hex = "*"
log = "*"
rgb = "*"
rusb = "*"
