[package]
name = "snake_rs"
version = "0.1.0"
edition = "2021"
publish = false

[dependencies]
druid = { version = "0.7", features = ["im"] }
im = "15"
rand = "0.8"
