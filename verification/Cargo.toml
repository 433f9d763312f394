[package]
name = "egui_macroquad"
version = "0.1.0"
edition = "2021"
publish = false

[dependencies]
egui = "=0.31.1"
egui-miniquad = "=0.16.0"
macroquad = "=0.4.16"
miniquad = "=0.4.11"
