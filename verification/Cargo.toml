[package]
name = "color_management"
version = "0.1.0"
edition = "2021"
publish = false

[dependencies]
tracing = "0.1"
wayland-protocols = { version = "0.32", features = ["server", "staging"] }
wayland-server = "0.31"
