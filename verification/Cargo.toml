[package]
name = "network"
version = "0.1.0"
edition = "2021"
publish = false

[dependencies]
rand = "0.8"
raqote = { version = "*", default-features = false }
minifb = "*"
fps_counter = "*"
