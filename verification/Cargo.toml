[package]
name = "siege_math"
version = "0.1.0"
edition = "2021"
publish = false

[dependencies]
float-cmp = "*"
num-traits = "*"
serde = "=1.0.229"
serde_derive = "=1.0.229"
