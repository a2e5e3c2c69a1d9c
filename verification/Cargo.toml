[package]
name = "esp32_tamagotchi"
version = "0.1.0"
edition = "2021"
publish = false

[dependencies]
trouble-host = { version = "=0.6.0", features = ["security"] }
sequential-storage = "=7.2.0"
embedded-storage-async = "=0.4.2"
embedded-storage = "=0.3.2"
embassy-futures = "=0.1.2"
embassy-sync = "=0.7.2"
embassy-time = { version = "=0.5.1", features = ["std"] }
embassy-embedded-hal = "=0.5.0"
embassy-executor = "0.9"
critical-section = { version = "=1.2.0", features = ["std"] }
log = "=0.4.34"
static_cell = "=2.1.1"
heapless = "=0.9.3"
