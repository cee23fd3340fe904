[package]
name = "direct_input"
version = "0.1.0"
edition = "2021"
publish = false

[dependencies]
webdriver = { version = "*", default-features = false }
