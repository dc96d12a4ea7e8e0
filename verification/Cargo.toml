[package]
name = "polyclip"
version = "0.1.0"
edition = "2021"
publish = false

[dependencies]
numpy = "*"
rustc_apfloat = "*"
