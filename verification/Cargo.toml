[package]
name = "majik_views"
version = "0.1.0"
edition = "2021"
publish = false

[dependencies]
directories = "*"
image = { version = "0.25", default-features = false }
