[package]
name = "reedline_repl_rs"
version = "0.1.0"
edition = "2021"
publish = false

[dependencies]
yansi = "*"
clap = "3"
reedline = "*"
crossterm = "*"
nu-ansi-term = "*"
