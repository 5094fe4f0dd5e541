[package]
name = "fishstick_jam_2"
version = "0.1.0"
edition = "2021"
publish = false

[dependencies]
bevy = { version = "0.14", default-features = false }
derive_more = { version = "1", features = ["display"] }
rand = "0.8"
