[package]
name = "range_comp"
version = "0.1.0"
edition = "2021"
publish = false

[dev-dependencies]
jiff = "=0.2.38"
