[package]
name = "tuktuk_scheduler"
version = "0.1.0"
edition = "2021"
publish = false

[dependencies]
anchor-lang = "=0.31.2"
tuktuk-program = "=0.4.1"
