[package]
name = "opencv_rs"
version = "0.1.1"
edition = "2021"
publish = false

[dependencies]
opencv = "0.93"
thiserror = "2"
