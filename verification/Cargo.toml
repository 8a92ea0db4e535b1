[package]
name = "fltk_anchor"
version = "0.1.0"
edition = "2021"
publish = false

[dependencies]
fltk = "1"
