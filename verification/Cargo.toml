[package]
name = "color_guess"
version = "0.1.0"
edition = "2021"
publish = false

[dependencies]
colored = "2"
eyre = "0.6"
rand = "0.8"
