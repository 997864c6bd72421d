[package]
name = "rv3028"
version = "0.1.0"
edition = "2021"
publish = false

[dependencies]
chrono = "0.4"
embedded-hal = "0.2"
rtcc = "0.3"
