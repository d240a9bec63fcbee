[package]
name = "retro_wicket"
version = "0.1.0"
edition = "2021"
publish = false

[dependencies]
rand = "0.8"
macroquad = "0.4"
rapier3d = "0.22"
nalgebra = "0.33"
urlencoding = "2"
