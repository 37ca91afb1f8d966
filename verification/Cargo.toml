[package]
name = "bascula"
version = "0.1.0"
edition = "2021"
publish = false

[dependencies]
hex = "*"
log = "*"
serde = { version = "*", features = ["derive"] }
serde_json = "*"
embedded-graphics = "*"
ssd1306 = "*"
mfrc522 = "*"
esp-idf-svc = "*"
