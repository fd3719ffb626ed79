[package]
name = "smtpapi"
version = "0.1.0"
edition = "2021"

[dependencies]
rustc-serialize = "0.3"

[dev-dependencies]
time = "0.1"
