[package]
name = "color_switch"
version = "0.1.0"
edition = "2021"
publish = false

[dependencies]
macroquad = "*"
miniquad = "*"
quad-storage = "*"
quad-rand = "*"
