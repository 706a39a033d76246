[package]
name = "iroh_ping"
version = "0.1.0"
edition = "2021"
publish = false

[dependencies]
anyhow = "*"
iroh = "*"
iroh-metrics = "*"
n0-error = "*"
