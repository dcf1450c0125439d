[package]
name = "vkbd"
version = "0.1.0"
edition = "2021"
publish = false

[dependencies]
regex = "1"
arboard = { version = "3", default-features = false }
anyhow = "1"
log = "0.4"
