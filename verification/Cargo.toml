[package]
name = "openxr_stream"
version = "0.1.0"
edition = "2021"
publish = false

[dependencies]
openxr = { version = "=0.19.0", default-features = false }
rodio = { version = "=0.21.1", default-features = false }
