[package]
name = "stm32wl_flash"
version = "0.1.0"
edition = "2021"
publish = false

[dependencies]
defmt = "0.3"
stm32wl = { version = "0.15", features = ["stm32wl5x_cm4"] }
