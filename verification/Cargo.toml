[package]
name = "stm32_adc"
version = "0.1.0"
edition = "2021"
publish = false

[dependencies]
cortex-m = "=0.7.10"
embedded-hal = { version = "=0.2.7", features = ["unproven"] }
nb = "=1.1.0"
