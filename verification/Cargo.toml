[package]
name = "ascot"
version = "0.1.0"
edition = "2021"
publish = false

[dependencies]
indexmap = "2"
hashbrown = "0.15"
heapless = "0.8"
serde = { version = "1", features = ["derive"] }
serde_json = "1"
embedded-hal = "1"
embedded-hal-async = "1"
