[package]
name = "image_resizer"
version = "0.1.0"
edition = "2021"
publish = false

[dependencies]
anyhow = "1"
argh = "0.1"
glob = "0.3"
image = "0.25"
walkdir = "2"
