[package]
name = "parse_checker"
version = "0.1.0"
edition = "2021"
publish = false

[dependencies]
similar = { version = "*", features = ["unicode"] }
clap = { version = "*", features = ["derive"] }
console = "*"
duct = "*"
which = "*"
