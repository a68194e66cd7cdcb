[package]
name = "solar_tracker"
version = "0.1.0"
edition = "2021"
publish = false

[dependencies]
embedded-hal = "=1.0.0"
astronav = { version = "=0.2.5", features = ["noaa-sun"] }
semver = "=1.0.28"
hex = "=0.4.3"
base64 = "=0.22.1"
serde = { version = "=1.0.229", features = ["derive"] }
toml = "=0.8.23"
serde_json = "=1.0.154"
sha2 = "=0.10.9"
chrono = "0.4"
sun-times = "*"
