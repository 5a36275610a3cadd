[package]
name = "multiview"
version = "0.1.0"
edition = "2021"
publish = false

[dependencies]
candelabre-windowing = "0.2.1"
gl = "0.14"
glutin = "0.24"
nvg = "0.5.11"
nvg-gl = "0.5.4"
