[package]
name = "meloled"
version = "0.1.0"
edition = "2021"
publish = false

[dependencies]
embassy-sync = "=0.6.2"
embassy-time = "=0.3.2"
embassy-executor = { version = "=0.6.3", features = ["arch-std", "executor-thread"] }
embassy-rp = { version = "=0.2.0", features = ["time-driver"] }
embassy-usb-logger = "=0.2.0"
embedded-graphics = "=0.8.2"
ssd1306 = "=0.8.4"
log = "=0.4.34"
critical-section = { version = "=1.2.0", features = ["std"] }
