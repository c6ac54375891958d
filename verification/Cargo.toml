[package]
name = "sleigh_lift"
version = "0.1.0"
edition = "2021"
publish = false

[dependencies]
lzma-rs = "*"
cxx = "*"
sleigh-sys = "*"
