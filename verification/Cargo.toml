[package]
name = "iced_interaction"
version = "0.1.0"
edition = "2021"
publish = false

[dependencies]
unicode-segmentation = "1"
num-traits = "0.2"
