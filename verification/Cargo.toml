[package]
name = "paperwatch"
version = "0.1.0"
edition = "2021"
publish = false

[dependencies]
chrono = "=0.4.45"
config = { version = "=0.15.27", default-features = false, features = ["toml"] }
csv = "=1.4.0"
headless_chrome = { version = "=1.0.22", features = ["offline"] }
lettre = "=0.11.23"
rayon = "=1.12.0"
serde = { version = "=1.0.229", features = ["derive"] }
tracing = "=0.1.44"
tracing-subscriber = "=0.3.23"
