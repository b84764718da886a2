[package]
name = "bsky_gif_unfucker"
version = "0.1.0"
edition = "2021"
publish = false

[dependencies]
gif = "0.13"
image = { version = "0.25", default-features = false, features = ["gif"] }
anyhow = "1"
