[package]
name = "game_metrics"
version = "0.1.0"
edition = "2021"
publish = false

[dependencies]
hdrhistogram = { version = "*", default-features = false }
quanta = "*"
crossbeam-channel = "*"
parking_lot = "*"
fxhash = "*"
lazy_static = "*"
