[package]
name = "loggy"
version = "0.1.0"
edition = "2021"
publish = false

[dependencies]
lazy_static = "1"
log = "0.4"
parking_lot = "*"
time = { version = "0.3", features = ["formatting", "parsing", "local-offset"] }
unindent = "*"
