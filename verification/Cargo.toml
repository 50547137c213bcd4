[package]
name = "platformer"
version = "0.1.0"
edition = "2021"
publish = false

[dependencies]
amethyst = { version = "0.15", default-features = false }
json = "0.11"
ron = "0.4"
serde = { version = "1", features = ["derive"] }
tap = "0.3"
