[package]
name = "obsidian"
version = "0.1.0"
edition = "2021"
publish = false

[dependencies]
unicode-segmentation = "=1.13.3"
nvim-oxi = { version = "=0.6.0", features = ["neovim-0-11"] }
