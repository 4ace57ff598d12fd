[package]
name = "render_passes"
version = "0.1.0"
edition = "2021"
publish = false

[dependencies]
xorshift = "*"
glam = "*"
miniquad = "0.3"
