[package]
name = "bgm_deck"
version = "0.1.0"
edition = "2021"
publish = false

[dependencies]
rodio = "0.19"
cpal = "0.15"
parking_lot = "0.12"
serde = { version = "1", features = ["derive"] }
confy = "0.6"
anyhow = "1"
