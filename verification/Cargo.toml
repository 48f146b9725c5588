[package]
name = "papajbadge"
version = "0.1.0"
edition = "2021"
publish = false

[dependencies]
embassy-sync = "*"
embassy-futures = "*"
embassy-time = "*"
embassy-executor = "*"
critical-section = { version = "1", features = ["std"] }
ch58x-hal = "*"
qingke = "*"
qingke-rt = "*"
spi-memory = "*"
embedded-hal = "1"
