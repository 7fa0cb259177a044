[package]
name = "graphite-editor"
version = "0.1.0"
edition = "2021"
publish = false

[dependencies]
glam = { version = "0.20", features = ["serde"] }
remain = "0.2"
serde = { version = "1.0", features = ["derive"] }
tungstenite = "0.17"
