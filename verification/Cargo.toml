[package]
name = "console"
version = "0.1.0"
edition = "2021"
publish = false

[dependencies]
shlex = "1"
async-trait = "0.1"
thiserror = "1"
crossterm = "0.27"
ratatui = "0.26"
