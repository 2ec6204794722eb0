[package]
name = "leafwing_abilities"
version = "0.1.0"
edition = "2021"
publish = false

[dependencies]
bevy = { version = "0.10", default-features = false }
derive_more = "0.99"
