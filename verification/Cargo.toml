[package]
name = "gles_scene"
version = "0.1.0"
edition = "2021"
publish = false

[dependencies]
opengles = "=0.1.2"
cgmath = "=0.18.0"
log = "=0.4.34"
simple_logger = "=5.2.0"

[dev-dependencies]
khronos-egl = { version = "4.1", features = ["static"] }
