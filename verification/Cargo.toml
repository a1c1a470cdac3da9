[package]
name = "stm32_f0_rust"
version = "0.1.0"
edition = "2021"
publish = false

[dependencies]
cortex-m = "0.7"
cortex-m-rt = "0.7"
cortex-m-semihosting = "0.5"
panic-semihosting = "0.6"
stm32f0 = { version = "*", features = ["stm32f0x1", "rt"] }
stm32f0x2 = "0.1.0"
