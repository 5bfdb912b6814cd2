[package]
name = "llmchat"
version = "0.1.0"
edition = "2021"
publish = false

[dependencies]
serde_json = "1"
crossbeam-channel = "0.5"
copypasta = "*"
ratatui = "*"
crossterm = "*"
textwrap = "*"
