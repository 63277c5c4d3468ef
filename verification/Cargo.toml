[package]
name = "qx86"
version = "0.1.0"
edition = "2021"
publish = false

[dependencies]
lazy_static = "1.4.0"
strum = "0.15"
strum_macros = "0.15"
