[package]
name = "signal_neon_futures"
version = "0.1.0"
edition = "2021"
publish = false

[dependencies]
futures = "=0.3.34"
neon = "=1.1.2"
rand = "=0.7.3"
