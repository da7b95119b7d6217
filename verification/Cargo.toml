[package]
name = "colorhash"
version = "0.1.0"
edition = "2021"
publish = false

[dependencies]
gethostname = "0.4"
