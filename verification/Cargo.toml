[package]
name = "pio_engine"
version = "0.1.0"
edition = "2021"
publish = false

[dependencies]
cortex-m = "0.7"
cortex-m-rt = "0.7"
critical-section = { version = "1", features = ["std"] }
embedded-alloc = "0.5"
log = "0.4"
panic-reset = "0.1"
pio = "0.2"
rp2040-boot2 = "0.3"
rp2040-hal = { version = "0.9", features = ["rt"] }
usb-device = "0.2"
usbd-serial = "0.1"
