[package]
name = "chartscan"
version = "0.1.0"
edition = "2021"
publish = false

[dependencies]
clap = { version = "3", features = ["derive"] }
num-format = "0.4"
regex = "1"
