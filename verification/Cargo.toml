[package]
name = "glyph_text"
version = "0.1.0"
edition = "2021"
publish = false

[dependencies]
gl = "0.11"
glutin = "0.19"
rusttype = { version = "0.6", features = ["gpu_cache"] }
unicode-normalization = "0.1"
