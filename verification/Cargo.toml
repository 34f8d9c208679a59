[package]
name = "ble_sci"
version = "0.1.0"
edition = "2021"
publish = false

[dependencies]
bt-hci = "=0.10.1"
embassy-executor = { version = "=0.10.0", features = ["platform-std", "executor-thread"] }
embassy-futures = "=0.1.2"
embassy-nrf = { version = "=0.11.0", features = ["nrf52840", "time-driver-rtc1"] }
embassy-time = "=0.5.1"
log = "=0.4.34"
nrf-sdc = "=0.4.0"
proc-macro2 = "=1.0.107"
quote = "=1.0.47"
rtt-target = "=0.6.2"
static_cell = "=2.1.1"
syn = { version = "=2.0.119", features = ["full"] }
trouble-host = "=0.8.0"
