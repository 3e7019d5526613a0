[package]
name = "orions_hands"
version = "0.1.0"
edition = "2021"
publish = false

[dependencies]
cortex-m = "0.7"
cortex-m-rt = "0.7"
display-interface-i2c = "0.4"
embedded-graphics = "0.7"
embedded-hal = "0.2"
fugit = "0.3"
panic-halt = "0.2"
rp-pico = "0.6"
rp2040-hal = "0.7"
ssd1309 = "0.3"
usb-device = "0.2"
usbd-human-interface-device = "0.3"
