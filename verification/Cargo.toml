[package]
name = "sotto"
version = "0.1.0"
edition = "2021"
publish = false

[dependencies]
cpal = "0.15"
enigo = { version = "0.2", default-features = false }
image = { version = "0.25", default-features = false, features = ["png"] }
metal = "0.29"
parking_lot = "0.12"
reqwest = { version = "0.12", default-features = false, features = ["blocking", "default-tls"] }
serde = { version = "1", features = ["derive"] }
serde_json = "1"
whisper-rs = "0.15"
