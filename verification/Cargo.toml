[package]
name = "snake"
version = "0.1.0"
edition = "2021"
publish = false

[dependencies]
getrandom = "0.2"
ggez = "0.5"
oorandom = "11"
