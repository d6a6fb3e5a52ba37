[package]
name = "seeed_lora_e5"
version = "0.1.0"
edition = "2021"
publish = false

[dependencies]
atat = "*"
atat_derive = "*"
serde_at = "*"
heapless = "*"
embassy-sync = "*"
embedded-io = "*"
embedded-io-async = "*"
