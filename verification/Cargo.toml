[package]
name = "transcribeupl"
version = "0.1.0"
edition = "2021"
publish = false

[dependencies]
anyhow = "1"
chrono = "0.4"
directories = "5"
env_logger = "0.10"
evdev = "0.12"
log = "0.4"
serde = { version = "1", features = ["derive"] }
symphonia = { version = "0.5", features = ["mp3", "wav", "ogg", "vorbis", "pcm"] }
toml = "0.8"
