[package]
name = "pico"
version = "0.1.0"
edition = "2021"
publish = false

[dependencies]
clap = "2"
hex = "0.4"
md5 = "0.7"
