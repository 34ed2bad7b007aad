[package]
name = "webp_to_gif"
version = "1.0.0"
edition = "2021"
publish = false

[dependencies]
gif = "0.13"
webp-animation = "0.9"
serde = { version = "1", features = ["derive"] }
serde_json = "1"
thiserror = "2"
open = "5"

[dev-dependencies]
tempfile = "3"
