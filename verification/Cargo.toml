[package]
name = "hid_central"
version = "0.1.0"
edition = "2021"
publish = false

[dependencies]
bt-hci = "=0.6.0"
trouble-host = { version = "=0.5.1", features = ["scan", "security"] }
embassy-sync = "=0.7.2"
embassy-time = "0.5"
embassy-futures = "0.1"
embassy-executor = "0.9"
embassy-rp = { version = "0.9", features = ["rp2040", "time-driver", "critical-section-impl", "unstable-pac"] }
embedded-io = "0.6"
cyw43 = { version = "0.6", features = ["bluetooth", "firmware-logs"] }
cyw43-pio = "0.9"
defmt = "1"
defmt-rtt = "1"
panic-probe = { version = "1", features = ["print-defmt"] }
static_cell = "2"
