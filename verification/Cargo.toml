[package]
name = "breathing_led"
version = "0.1.0"
edition = "2021"
publish = false

[dependencies]
panic-halt = "*"
riscv-rt = "*"
