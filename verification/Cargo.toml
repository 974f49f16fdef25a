[package]
name = "pico-gnss"
version = "0.1.0"
edition = "2021"
publish = false

[dependencies]
heapless = "=0.9.3"
nmea = "=0.8.0"
chrono = { version = "=0.4.45", default-features = false }
pio = "=0.3.0"
fixed = "=1.31.0"
portable-atomic = "=1.15.0"
static_cell = "=2.1.1"
embassy-time = "=0.5.1"
embassy-sync = "=0.8.0"
embassy-futures = "=0.1.2"
embassy-executor = "=0.10.0"
embassy-rp = { version = "=0.10.0", features = ["rp2040", "time-driver", "unstable-pac", "critical-section-impl"] }
embedded-io-async = "=0.7.0"
defmt = "=1.2.0"
defmt-rtt = "*"
panic-probe = "*"
