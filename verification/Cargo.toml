[package]
name = "config"
version = "0.1.0"
edition = "2021"
publish = false

[dependencies]
envy = "0.4.2"
serde = { version = "1", features = ["derive"] }
anyhow = "1"
