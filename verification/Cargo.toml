[package]
name = "firmware"
version = "0.1.0"
edition = "2021"
publish = false

[dependencies]
usbpd = "=3.0.0"
usbpd-traits = "=2.0.0"
uom-ng = { version = "=0.39.0", default-features = false, features = ["si", "u32"] }
heapless = "=0.9.3"
libm = "=0.2.16"
pid = "=4.0.0"
strum = { version = "=0.28.0", features = ["derive"] }
embedded-graphics = "=0.8.2"
embedded-layout = "=0.4.2"
embassy-time = "=0.5.1"
embassy-sync = "=0.8.0"
embassy-futures = "=0.1.2"
embassy-executor = "=0.10.0"
defmt = "=1.2.0"
ssd1315 = "=0.3.0"
display-interface = "=0.5.0"
