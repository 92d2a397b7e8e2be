[package]
name = "headtrack"
version = "0.1.0"
edition = "2021"
publish = false

[dependencies]
adafruit-kb2040 = "=0.7.0"
arrayvec = { version = "=0.7.8", default-features = false }
bbqueue = "=0.5.1"
bno080 = "=0.1.3"
cortex-m-rt = "=0.7.7"
embedded-hal = "=0.2.7"
fugit = "=0.3.9"
nalgebra = { version = "=0.32.6", default-features = false, features = ["libm"] }
nb = "=1.1.0"
panic-halt = "=0.2.0"
smart-leds = "=0.3.0"
usb-device = "=0.2.9"
usbd-serial = "=0.1.1"
ws2812-pio = "=0.7.0"
