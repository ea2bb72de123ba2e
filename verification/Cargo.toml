[package]
name = "rps_automaton"
version = "0.1.0"
edition = "2021"
publish = false

[dependencies]
anyhow = "1"
bytemuck = "1"
rand = "=0.8.8"
tracing = "0.1"
tracing-subscriber = "0.3"
