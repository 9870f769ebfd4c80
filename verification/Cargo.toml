[package]
name = "yagl"
version = "0.1.0"
edition = "2021"
publish = false

[dependencies]
a2d = "=0.1.11"
anyhow = "=1.0.104"
futures = "=0.3.34"
gilrs = "=0.11.2"
winit = "0.22"
