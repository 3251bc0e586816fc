[package]
name = "fmc_noise"
version = "0.1.0"
edition = "2021"
publish = false

[dependencies]
target-features = "0.1"
proc-macro2 = "1"
quote = "1"
syn = { version = "2", features = ["full", "visit-mut"] }
