[package]
name = "firefox_user_installer"
version = "0.1.0"
edition = "2021"
publish = false

[dependencies]
chrono = "=0.4.45"
directories = "=4.0.1"
gtk = "=0.15.5"
indicatif = "0.17"
regex = "=1.13.1"
reqwest = { version = "=0.11.27", features = ["blocking"] }
serde = { version = "=1.0.229", features = ["derive"] }
serde_json = "=1.0.154"
tempfile = "=3.27.0"
