[package]
name = "prompt_market"
version = "0.1.0"
edition = "2021"
publish = false

[dependencies]
soroban-sdk = "=26.1.1"
stellar-tokens = "=0.7.3"
stellar-access = "=0.7.3"
stellar-contract-utils = "=0.7.3"
stellar-macros = "=0.7.3"
