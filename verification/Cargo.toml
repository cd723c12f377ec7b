[package]
name = "video_bytestream_tools"
version = "0.1.0"
edition = "2021"
publish = false

[dependencies]

[dev-dependencies]
byteorder = "*"
h264-reader = "*"
