[package]
name = "kyber_playground"
version = "0.1.0"
edition = "2021"
publish = false

[dependencies]
aes-gcm = "0.10"
crystals-dilithium = "*"
kyberlib = "*"
rand = "0.8"
