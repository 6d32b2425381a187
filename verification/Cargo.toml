[package]
name = "macro-dsl"
version = "0.1.0"
edition = "2021"
publish = false

[dependencies]
beryllium = "0.2"
gl33 = "*"
