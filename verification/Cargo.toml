[package]
name = "see"
version = "0.1.0"
edition = "2021"
publish = false

[dependencies]
chrono = "*"
libflate = "*"
yaml-rust = "*"
