[package]
name = "imot"
version = "0.1.0"
edition = "2021"
publish = false

[dependencies]
anyhow = "1"
image = "0.23"
structopt = "0.3"
