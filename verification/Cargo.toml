[package]
name = "crypto"
version = "0.1.0"
edition = "2021"
publish = false

[dependencies]
crypto-bigint = "=0.5.5"
starknet-crypto = "=0.6.2"
starknet-ff = "=0.3.7"
