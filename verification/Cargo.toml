[package]
name = "modular_agents"
version = "0.1.0"
edition = "2021"
publish = false

[dependencies]
par-map = "*"
