[package]
name = "degen-radio"
version = "0.43.0"
edition = "2021"
publish = false

[dependencies]
anyhow = "1"
log = "0.4"
rodio = "0.22"
