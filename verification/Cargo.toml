[package]
name = "whatsapp-web-wrapper"
version = "0.1.0"
edition = "2021"
publish = false

[dependencies]
serde = { version = "1", features = ["derive"] }
serde_json = "1"
notify-rust = { version = "4", default-features = false, features = ["d"] }
webkit2gtk = "2"
gtk = "0.18"
