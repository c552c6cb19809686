[package]
name = "password_vault"
version = "0.1.0"
edition = "2021"
publish = false

[dependencies]
aes-gcm-siv = "0.11"
rayon = "1"
serde = { version = "1", features = ["derive"] }
serde_json = "1"
relm4 = { version = "0.9", features = ["libadwaita"] }
relm4-icons = "*"
