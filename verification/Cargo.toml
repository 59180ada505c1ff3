[package]
name = "orion"
version = "0.1.0"
edition = "2021"
publish = false

[dependencies]
sha2 = "0.10"
tiny-keccak = "1"
constant_time_eq = "0.3"
rand = "0.8"
clear_on_drop = "0.2"

[dev-dependencies]
hex = "0.4"
