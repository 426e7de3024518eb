[package]
name = "jhd1313m1_i2c"
version = "0.1.0"
edition = "2021"
publish = false

[dependencies]
defmt = "*"
embassy-rp = { version = "*", features = ["rp2040"] }
embassy-time = "*"
embedded-hal-async = "*"
