[package]
name = "qingke"
version = "0.1.0"
edition = "2021"
publish = false

[dependencies]
bit_field = "0.10"
critical-section = { version = "1", features = ["std"] }
riscv = "*"
volatile-register = "0.2"
syn = { version = "1", features = ["full", "extra-traits"] }
quote = "1"
proc-macro2 = "1"
