[package]
name = "rf_comp"
version = "0.1.0"
edition = "2021"
publish = false

[dependencies]
hound = "3"
libm = "0.2"
