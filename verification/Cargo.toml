[package]
name = "parzip"
version = "0.1.0"
edition = "2021"
publish = false

[dependencies]
zstd = "*"
tar = "*"
rayon = "*"
walkdir = "*"
indicatif = "*"
clap = { version = "*", features = ["derive"] }
