[package]
name = "xivc"
version = "0.1.0"
edition = "2021"
publish = false

[dependencies]
rand = "0.8"
radix-heap = "*"
serde = { version = "1", features = ["derive"] }
