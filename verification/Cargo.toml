[package]
name = "quickreplace"
version = "0.1.0"
edition = "2021"
publish = false

[dependencies]
regex = "*"
text-colorizer = "*"
