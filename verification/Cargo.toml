[package]
name = "nrt"
version = "0.1.0"
edition = "2021"
publish = false

[dependencies]
log = "*"
simplelog = "*"
