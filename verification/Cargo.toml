[package]
name = "tutorial_games"
version = "0.1.0"
edition = "2021"
publish = false

[dependencies]
fyrox = { version = "0.27.1", default-features = false }
