[package]
name = "fcplug"
version = "0.1.0"
edition = "2021"
publish = false

[dependencies]
md5 = "0.7"
regex = "1"
anyhow = "1"
walkdir = "2"
pathdiff = "0.2"
serde = { version = "1", features = ["derive"] }
serde_json = "1"
cbindgen = { version = "0.24", default-features = false }
