[package]
name = "text_editor"
version = "0.1.0"
edition = "2021"
publish = false

[dependencies]
sdl2 = { version = "0.36", features = ["ttf"] }
tinyfiledialogs = "3"
