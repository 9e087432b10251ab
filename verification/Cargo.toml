[package]
name = "yakui_macroquad"
version = "0.1.0"
edition = "2021"
publish = false

[dependencies]
macroquad = "*"
send_wrapper = "*"
yakui-core = "*"
yakui-miniquad = "*"
