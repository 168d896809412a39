[package]
name = "allen"
version = "0.1.0"
edition = "2021"
publish = false

[dependencies]
oal-sys-windows = "*"
serde = { version = "*", features = ["derive"] }
