[package]
name = "sensor_node"
version = "0.1.0"
edition = "2021"
publish = false

[dependencies]
cortex-m = { version = "=0.7.10", features = ["inline-asm", "critical-section-single-core"] }
cortex-m-rt = "=0.7.7"
defmt = "=0.3.101"
defmt-rtt = "=0.4.2"
embassy-embedded-hal = { version = "=0.3.2", features = ["defmt"] }
embassy-executor = { version = "=0.7.0", features = ["arch-spin", "executor-thread", "defmt"] }
embassy-futures = "=0.1.2"
embassy-stm32 = { version = "=0.2.0", features = ["defmt", "stm32wb55vg", "time-driver-any"] }
embassy-sync = { version = "=0.6.2", features = ["defmt"] }
embassy-time = { version = "=0.4.0", features = ["defmt"] }
embassy-usb = { version = "=0.4.0", features = ["defmt"] }
embedded-hal-async = "=1.0.0"
panic-probe = { version = "=0.3.2", features = ["print-defmt"] }
static_cell = "=2.1.1"
