[package]
name = "frame_compositor"
version = "0.1.0"
edition = "2021"
publish = false

[dependencies]
fn-store = "*"
unsized-stack = "*"
wgpu = { version = "0.16", default-features = false }
