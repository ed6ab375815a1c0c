[package]
name = "sotora"
version = "0.1.0"
edition = "2021"
publish = false

[dependencies]
directories = "*"
ab_glyph = "*"
