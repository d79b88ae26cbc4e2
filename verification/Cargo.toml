[package]
name = "igpay-atinlay"
version = "0.1.0"
edition = "2021"
publish = false

[dependencies]
is-vowel = "*"
regex = "1"
