[package]
name = "wallpaper"
version = "0.1.0"
edition = "2021"
publish = false

[dependencies]
dirs = "*"
url = "*"
reqwest = { version = "*", features = ["blocking"] }
