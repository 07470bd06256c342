[package]
name = "viewport_axis"
version = "0.1.0"
edition = "2021"
publish = false

[dependencies]
epaint = "0.23"
serde = { version = "1", features = ["derive"] }
