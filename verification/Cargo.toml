[package]
name = "mech_car"
version = "0.1.0"
edition = "2021"
publish = false

[dependencies]
trouble-host = { version = "=0.8.0", features = ["scan", "security"] }
heapless = "=0.9.3"
fixed = "=1.31.0"
static_cell = "=2.1.1"
embassy-executor = "=0.10.0"
embassy-futures = "=0.1.2"
embassy-sync = "=0.8.0"
embassy-time = "=0.5.1"
embassy-net = { version = "=0.9.1", features = ["dhcpv4", "dns"] }
embassy-rp = { version = "=0.10.0", features = ["rp2040", "time-driver", "critical-section-impl", "unstable-pac"] }
cyw43 = { version = "=0.7.0", features = ["bluetooth"] }
cyw43-pio = "=0.10.0"
embedded-graphics = "=0.8.1"
embedded-hal = "=1.0.0"
embedded-hal-bus = "=0.3.0"
ibm437 = "=0.5.0"
ssd1306 = "=0.10.0"
rp2040-hal = "=0.12.0"
