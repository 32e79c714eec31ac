[package]
name = "ellington"
version = "0.1.0"
edition = "2021"
publish = false

[dependencies]
url = "*"
percent-encoding = "*"
serde = { version = "*", features = ["derive"] }
serde_json = "*"
rand = "*"
plist = "*"
walkdir = "*"
