[package]
name = "iroh"
version = "0.1.0"
edition = "2021"
publish = false

[dependencies]
anyhow = "1"
convert_case = "0.4"
iced = "0.3"
libloading = "0.7"
proc-macro2 = "1"
quote = "1"
syn = { version = "1", features = ["full"] }
