[package]
name = "glyph_rain"
version = "0.1.0"
edition = "2021"
publish = false

[dependencies]
anathema = "*"
colorsys = "*"
rand = "0.8"
