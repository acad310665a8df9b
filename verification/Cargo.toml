[package]
name = "promptline"
version = "0.1.0"
edition = "2021"
publish = false

[dependencies]
ansi_term = "0.12"
regex = "1"
toml = "0.5"
unicode-segmentation = "1"
unicode-width = "0.1"
yaml-rust = "0.4"
