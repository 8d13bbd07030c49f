[package]
name = "scb_message_handler"
version = "0.1.0"
edition = "2021"
publish = false

[dependencies]
bitcoin = "0.29.2"
lightning = "0.0.116"
