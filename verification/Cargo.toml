[package]
name = "sdcard"
version = "0.1.0"
edition = "2021"
publish = false

[dependencies]
nb = "=1.1.0"
stm32l4 = { version = "=0.12.1", features = ["stm32l4x6"] }
stm32l4xx-hal = { version = "=0.6.0", features = ["stm32l4x6"] }
