[package]
name = "bookwork"
version = "0.1.0"
edition = "2021"
publish = false

[dependencies]
log = "0.4"
simplelog = { version = "0.12", features = ["paris"] }
syn = "2"
quote = "1"
proc-macro2 = "1"
