[package]
name = "ccp_example_alg"
version = "0.1.0"
edition = "2021"
publish = false

[dependencies]
portus = "*"
fnv = "1"
clap = "2"
slog = "2"
slog-term = "2"
slog-async = "2"
