[package]
name = "flipdigit"
version = "0.1.0"
edition = "2021"
publish = false

[dependencies]
cortex-m = "0.7"
cortex-m-rt = "0.7"
embedded-hal = "0.2"
panic-halt = "0.2"
stm32f0xx-hal = { version = "0.18", features = ["stm32f030x6"] }
