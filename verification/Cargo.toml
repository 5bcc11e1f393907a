[package]
name = "samd_hal"
version = "0.1.0"
edition = "2021"
publish = false

[dependencies]
embedded-hal = "0.2"
nb = "0.1"
void = "1"
