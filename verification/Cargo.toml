[package]
name = "music_player"
version = "0.1.0"
edition = "2021"
publish = false

[dependencies]
anyhow = "*"
lofty = "*"
mpris-server = "*"
tokio = { version = "*", features = ["rt", "sync", "time"] }
