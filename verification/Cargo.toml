[package]
name = "photo_kiosk"
version = "0.1.0"
edition = "2021"
publish = false

[dependencies]
opencv = "*"
peak_alloc = "*"
