[package]
name = "matrixled"
version = "0.1.0"
edition = "2021"
publish = false

[dependencies]
cortex-m = "0.6"
cortex-m-rt = "0.6"
panic-halt = "0.2"
stm32f4 = { version = "0.11", features = ["stm32f401", "rt"] }
