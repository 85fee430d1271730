[package]
name = "zilla"
version = "0.1.0"
edition = "2021"
publish = false

[dependencies]
lazy_static = "*"
reqwest = { version = "*", default-features = false, features = ["blocking"] }
tao = "*"
wry = "*"
