[package]
name = "sn3193"
version = "0.1.0"
edition = "2021"
publish = false

[dependencies]
embedded-hal = "1.0"
defmt = "*"
ufmt = "*"

[dev-dependencies]
embedded-hal-mock = "*"
