[package]
name = "resvg"
version = "0.1.0"
edition = "2021"
publish = false

[dependencies]
tiny-skia = "=0.12.0"
usvg = { version = "=0.34.1", default-features = false }
