[package]
name = "button_leds"
version = "0.1.0"
edition = "2021"
publish = false

[dependencies]
defmt = "*"
defmt-rtt = "*"
embassy-executor = { version = "*", features = ["arch-std", "executor-thread"] }
embassy-stm32 = { version = "*", features = ["stm32f407zg"] }
embassy-sync = { version = "*", features = ["std"] }
embassy-time = { version = "*", features = ["std"] }
panic-probe = "*"
