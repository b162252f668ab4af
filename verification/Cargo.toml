[package]
name = "xrwm"
version = "0.1.0"
edition = "2021"
publish = false

[dependencies]
toml = "*"
xcb = "*"
serde = { version = "*", features = ["derive"] }
