[package]
name = "anomalies"
version = "0.2.2"
edition = "2021"
publish = false

[dependencies]
syn = "2"
quote = "1"
proc-macro2 = "1"
