[package]
name = "scene_core"
version = "0.1.0"
edition = "2021"
publish = false

[dependencies]
glam = { version = "*", features = ["serde"] }
axum = "*"
tokio = { version = "*", features = ["sync"] }
serde = { version = "*", features = ["derive"] }
