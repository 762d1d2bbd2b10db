[package]
name = "tex_tools"
version = "0.1.0"
edition = "2021"
publish = false

[dependencies]
unicode-normalization = "*"
serde_json = "*"
