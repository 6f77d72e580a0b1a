[package]
name = "json5_lex"
version = "0.1.0"
edition = "2021"
publish = false

[dependencies]
finl_unicode = "*"
