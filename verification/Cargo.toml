[package]
name = "celebrity_dogs"
version = "0.1.0"
edition = "2021"
publish = false

[dependencies]
rand = "0.8"
serde = { version = "1", features = ["derive"] }
toml = "0.8"
thiserror = "1"
async-std = "1"
iced = { version = "0.13", default-features = false, features = ["tiny-skia"] }
