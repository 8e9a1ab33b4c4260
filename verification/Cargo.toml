[package]
name = "eir"
version = "0.1.0"
edition = "2021"
publish = false

[dependencies]
critical-section = "=1.2.0"
defmt = "=1.2.0"
defmt-rtt = "=1.3.1"
embassy-executor = { version = "=0.9.1", features = ["arch-cortex-m", "executor-interrupt"] }
embassy-futures = "=0.1.2"
embassy-sync = "=0.8.0"
embassy-time = "=0.5.1"
embassy-usb = "=0.6.0"
panic-probe = { version = "=1.0.0", features = ["print-defmt"] }
smart-leds = "=0.4.0"
static_cell = "=2.1.1"

[dev-dependencies]
critical-section = { version = "=1.2.0", features = ["std"] }
embassy-time = { version = "=0.5.1", features = ["std"] }
