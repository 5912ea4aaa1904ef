[package]
name = "image_cache"
version = "0.1.0"
edition = "2021"
publish = false

[dependencies]
sha2 = "*"
hex = "*"
image = "*"
fast_image_resize = "*"
serde = { version = "*", features = ["derive"] }
serde_json = "*"
