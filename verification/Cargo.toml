[package]
name = "sabre_gateway"
version = "0.1.0"
edition = "2021"
publish = false

[dependencies]
sabre-sdk = "=0.5.2"
sawtooth-sdk = "=0.5.2"
rocket = "=0.4.11"
rocket_contrib = "=0.4.11"
