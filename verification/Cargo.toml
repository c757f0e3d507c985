[package]
name = "runebench_pi_agent"
version = "0.1.0"
edition = "2021"
publish = false

[dependencies]
smol = "2"
