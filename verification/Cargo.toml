[package]
name = "tiger_lib"
version = "0.1.0"
edition = "2021"
publish = false

[dependencies]
encoding_rs = "0.8"
unicode-width = "*"
ansiterm = "*"
walkdir = "2"
anyhow = "1"
rayon = "1"
itertools = "*"
strum = { version = "*", features = ["derive"] }
bitflags = "2"
inventory = "*"
