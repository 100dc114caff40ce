[package]
name = "videopipe"
version = "0.1.0"
edition = "2021"
publish = false

[dependencies]
log = "*"
opencv = "*"
rav1e = { version = "*", default-features = false }
