[package]
name = "slipmap"
version = "0.1.0"
edition = "2021"
publish = false

[dependencies]
brotli = "*"
libflate = "*"
lyon = "*"
fontdue = "*"
prost = "*"
rusqlite = { version = "*", features = ["bundled"] }
serde_json = "*"
notosans = "*"
