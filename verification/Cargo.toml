[package]
name = "ls_colorize"
version = "0.1.0"
edition = "2021"
publish = false

[dependencies]
lscolors = { version = "=0.21.0", features = ["nu-ansi-term"] }
nu-ansi-term = "0.50"
nu-path = "=0.114.1"
nu-utils = "=0.114.1"
nu-protocol = "=0.114.1"
nu-plugin = "=0.114.1"
