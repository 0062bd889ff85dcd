[package]
name = "imgproxy"
version = "0.1.0"
edition = "2021"
publish = false

[dependencies]
image = "*"
hyper = "0.10"
mime = "0.2"
