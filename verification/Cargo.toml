[package]
name = "flightdata"
version = "0.1.0"
edition = "2021"
publish = false

[dependencies]
csv = "*"
calamine = "*"
matfile = "*"
serde_json = "*"
