[package]
name = "noctua"
version = "0.1.0"
edition = "2021"
publish = false

[dependencies]
clap = { version = "=4.6.7", features = ["derive"] }
dirs = "=7.0.0"
image = "=0.25.10"
kamadak-exif = "=0.6.1"
resvg = "=0.48.1"
sha2 = "=0.11.0"
