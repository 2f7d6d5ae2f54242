[package]
name = "livesplit_term"
version = "0.1.0"
edition = "2021"
publish = false

[dependencies]
getopts = "*"
livesplit-core = "*"
termion = "*"
tui = { version = "*", default-features = false, features = ["termion"] }
