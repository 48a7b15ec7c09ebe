[package]
name = "ocr_rs"
version = "2.0.0"
edition = "2021"
publish = false

[dependencies]
image = { version = "0.25", default-features = false }
imageproc = { version = "0.25", default-features = false }
ndarray = "0.16"
fast_image_resize = { version = "5", default-features = false, features = ["image"] }
