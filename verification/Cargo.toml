[package]
name = "pngquant"
version = "0.1.0"
edition = "2021"
publish = false

[dependencies]
imagequant = "*"
load_image = "*"
lodepng = "*"
clap = "*"
rayon = "*"
