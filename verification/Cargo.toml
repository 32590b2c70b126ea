[package]
name = "render_gl"
version = "0.1.0"
edition = "2021"
publish = false

[dependencies]
num = "0.4"
gl = "*"
sdl2 = "*"
syn = "2"
quote = "1"
proc-macro2 = "1"
