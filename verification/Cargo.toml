[package]
name = "bevy_luna"
version = "0.1.0"
edition = "2021"
publish = false

[dependencies]
wgpu-types = "=27.0.1"
