[package]
name = "led_link"
version = "0.1.0"
edition = "2021"
publish = false

[dependencies]
anyhow = "1"
btleplug = "0.11"
gtk4 = "*"
tokio = { version = "1", features = ["rt", "rt-multi-thread", "sync", "time"] }
uuid = "1"
