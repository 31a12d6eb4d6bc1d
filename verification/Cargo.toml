[package]
name = "sticker_sweeper"
version = "0.1.0"
edition = "2021"
publish = false

[dependencies]
chrono = "0.4"
futures = "0.3"
log = "0.4"
telegram-bot = "0.8"
tokio = { version = "0.2", features = ["macros", "rt-threaded", "time"] }
