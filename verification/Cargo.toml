[package]
name = "tli493d"
version = "0.1.0"
edition = "2021"
publish = false

[dependencies]
defmt = "1"
embedded-hal-async = "=1.0.0"
