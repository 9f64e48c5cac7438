[package]
name = "music_player"
version = "0.1.0"
edition = "2021"
publish = false

[dependencies]
dirs = "=7.0.0"
futures = "=0.3.34"
iced = { version = "=0.14.0", default-features = false, features = ["image", "tokio", "tiny-skia", "x11"] }
iced_fonts = { version = "=0.3.0", features = ["lucide"] }
image = { version = "=0.25.10", default-features = false, features = ["png", "jpeg"] }
mpd = "=0.1.0"
serde = { version = "=1.0.229", features = ["derive"] }
tokio = { version = "=1.54.1", features = ["rt"] }
toml = "=1.1.8"
