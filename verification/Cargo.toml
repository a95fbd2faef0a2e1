[package]
name = "ringlight"
version = "0.1.0"
edition = "2021"
publish = false

[dependencies]
ws2812-spi = "0.4"
smart-leds = "0.3"
smart-leds-trait = "0.2"
embedded-hal = "0.2"
nb = "0.1"
