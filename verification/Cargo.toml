[package]
name = "custom-controller"
version = "0.1.0"
edition = "2021"
publish = false

[dependencies]
defmt = "=0.3.101"
defmt-rtt = "0.4"
embassy-executor = "=0.7.0"
embassy-stm32 = { version = "=0.2.0", features = ["stm32f446re", "time-driver-any"] }
embassy-sync = "=0.6.2"
embassy-time = "=0.4.0"
panic-probe = { version = "0.3", features = ["print-defmt"] }
