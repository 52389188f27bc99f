[package]
name = "gdrust"
version = "0.1.0"
edition = "2021"
publish = false

[dependencies]
syn = { version = "2", features = ["full", "extra-traits"] }
proc-macro2 = "=1.0.107"
quote = "=1.0.47"
heck = "=0.3.3"
gdnative = "=0.9.3"
euclid = "=0.22.14"
num-traits = "=0.2.19"
