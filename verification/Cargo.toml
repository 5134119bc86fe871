[package]
name = "img2video"
version = "0.1.0"
edition = "2021"
publish = false

[dependencies]
image = "*"
minimp4 = "*"
rav1e = { version = "*", default-features = false }
x264 = "*"
