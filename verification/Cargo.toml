[package]
name = "hv_device"
version = "0.1.0"
edition = "2021"
publish = false

[dependencies]
heapless = { version = "=0.8.0", features = ["serde"] }
spin = "=0.9.9"
x86 = "=0.52.0"
log = "=0.4.34"
serde = { version = "=1.0.229", default-features = false, features = ["derive"] }
