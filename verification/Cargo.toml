[package]
name = "athn_document"
version = "0.1.0"
edition = "2021"
publish = false

[dependencies]
email_address = "*"
humantime = "*"
