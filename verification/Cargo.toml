[package]
name = "glow_glyph"
version = "0.1.0"
edition = "2021"
publish = false

[dependencies]
glyph_brush = "0.7"
ab_glyph = "0.2"
glow = "*"
log = "0.4"
