[package]
name = "framepipe"
version = "0.1.0"
edition = "2021"
publish = false

[dependencies]
crossbeam-channel = "0.5"
parking_lot = "0.12"
pixels = "0.13"
winit = "0.28"
