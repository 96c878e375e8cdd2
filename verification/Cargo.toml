[package]
name = "embassy-nrf-esb"
version = "0.1.0"
edition = "2021"
publish = false

[dependencies]
embassy-sync = "=0.8.0"
embassy-nrf = { version = "=0.11.0", features = ["nrf52840", "unstable-pac", "time-driver-rtc1"] }
embassy-futures = "=0.1.2"
embassy-time = "=0.5.1"
embassy-executor = "=0.10.0"
cortex-m = "=0.7.10"
static_cell = "=2.1.1"
heapless = "=0.9.3"
embassy-usb = "=0.6.0"
bt-hci = "=0.10.1"
nrf-mpsl = { version = "=0.4.0", features = ["nrf52840"] }
nrf-sdc = { version = "=0.4.0", features = ["nrf52840", "peripheral"] }

[dev-dependencies]
critical-section = { version = "1", features = ["std"] }
