[package]
name = "generic_cong_avoid"
version = "0.1.0"
edition = "2021"
publish = false

[dependencies]
portus = "*"
clap = "2"
slog = "2"
time = "*"
tracing = "0.1"
tracing-subscriber = "*"
