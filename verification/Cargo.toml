[package]
name = "imgopt"
version = "0.1.0"
edition = "2021"
publish = false

[dependencies]
anyhow = "*"
clap = { version = "*", features = ["derive"] }
image = "*"
mozjpeg = "*"
resize = "*"
rgb = "*"
webp = "*"
