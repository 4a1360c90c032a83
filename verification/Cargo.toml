[package]
name = "album_maker"
version = "0.1.0"
edition = "2021"
publish = false

[dependencies]
ring = "*"
hex = "*"
base64 = "0.13"
uuid = { version = "*", features = ["v4"] }
