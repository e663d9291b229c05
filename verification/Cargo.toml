[package]
name = "indicator_display"
version = "0.1.0"
edition = "2021"
publish = false

[dependencies]
anyhow = "1"
embedded-graphics = "0.8"
esp-idf-svc = "*"
log = "0.4"
ssd1315 = "*"
tokio = { version = "1", features = ["rt", "time"] }
