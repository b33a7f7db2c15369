[package]
name = "cw_state"
version = "0.1.0"
edition = "2021"
publish = false

[dependencies]
anyhow = "1"
crossterm = "0.25"
env_logger = "0.10"
synnax = "*"
tui = "0.19"
