[package]
name = "chess_gui"
version = "0.1.0"
edition = "2021"
publish = false

[dependencies]
rmp-serde = "1"
serde = { version = "1", features = ["derive"] }
ggez = { version = "0.9", default-features = false }
glam = { version = "0.24", features = ["mint"] }
mint = "0.5"
