[package]
name = "firefly_hal"
version = "0.1.0"
edition = "2021"
publish = false

[dependencies]
cobs = "=0.5.1"
embedded-io = "=0.7.1"
embedded-sdmmc = "=0.10.0"
firefly-types = "=0.11.3"
gilrs = "=0.11.2"
heapless = "=0.9.3"
