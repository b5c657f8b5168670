[package]
name = "ocr_boundary"
version = "0.1.0"
edition = "2021"
publish = false

[dependencies]
ddddocr = "*"
log = "0.4"
android_logger = "*"
libloading = "*"
