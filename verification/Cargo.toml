[package]
name = "gbm"
version = "0.18.0"
edition = "2021"
publish = false

[dependencies]
drm-fourcc = "2.2"
libc = "0.2"
