[package]
name = "actix_signal"
version = "0.1.0"
edition = "2021"
publish = false

[dependencies]
actix = "*"
proc-macro2 = "*"
quote = "*"
syn = { version = "*", features = ["full"] }
