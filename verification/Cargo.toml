[package]
name = "serumcv_video_capture"
version = "0.1.0"
edition = "2021"
publish = false

[dependencies]
v4l = "*"
nix = { version = "*", features = ["ioctl"] }
tracing = "*"
