[package]
name = "sensor_telemetry"
version = "0.1.0"
edition = "2021"
publish = false

[dependencies]
anyhow = "=1.0.104"
bme280-rs = "=0.4.1"
embedded-hal = "=1.0.0"
embedded-hal-bus = { version = "=0.3.0", features = ["alloc"] }
linux-embedded-hal = { version = "=0.5.0", default-features = false, features = ["i2c"] }
log = "=0.4.34"
rand = "=0.10.3"
ringbuffer = "=0.16.0"
scd4x = { version = "=0.5.0", features = ["scd41"] }
tsl2591-eh-driver = "=0.5.1"
