[package]
name = "morse_i2s"
version = "0.1.0"
edition = "2021"
publish = false

[dependencies]
heapless = "0.5"
small_morse = "0.1"
embedded-hal = "0.2"
nrf52840-hal = "0.12"
cortex-m-rtic = "0.5"
