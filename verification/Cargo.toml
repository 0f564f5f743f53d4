[package]
name = "nur"
version = "0.1.0"
edition = "2021"
publish = false

[dependencies]
nu-protocol = "=0.114.1"
nu-parser = "=0.114.1"
nu-engine = "=0.114.1"
nu-cmd-lang = "=0.114.1"
nu-path = "=0.114.1"
nu-ansi-term = "0.50"
