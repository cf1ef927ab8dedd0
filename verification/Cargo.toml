[package]
name = "copyverify"
version = "0.1.0"
edition = "2021"

[dependencies]
flume = "*"
walkdir = "*"

[dev-dependencies]
tempfile = "*"
fs-err = "*"
