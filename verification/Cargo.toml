[package]
name = "wadachi_cpu"
version = "0.1.0"
edition = "2021"
publish = false

[dependencies]
bit_field = "0.10"
structopt = "0.3"
