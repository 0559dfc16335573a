[package]
name = "scryer_bridge"
version = "0.1.0"
edition = "2021"
publish = false

[dependencies]
num-bigint = "=0.4.8"
num-rational = "=0.4.2"
ordered-float = "=5.5.0"
pyo3 = { version = "=0.29.3", features = ["num-bigint", "num-rational", "ordered-float"] }
scryer-prolog = "=0.10.0"
