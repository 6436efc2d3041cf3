[package]
name = "serve_dir"
version = "0.1.0"
edition = "2021"
publish = false

[dependencies]
async-std = "1"
async-trait = "0.1"
cap-async-std = "*"
