[package]
name = "zellij_sshd"
version = "0.1.0"
edition = "2021"
publish = false

[dependencies]
anyhow = "=1.0.104"
crossbeam-channel = "=0.5.17"
interprocess = "*"
russh = "=0.64.1"
tokio = { version = "=1.53.2", features = ["sync", "rt-multi-thread", "macros", "time"] }
url = "=2.5.8"
