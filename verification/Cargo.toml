[package]
name = "repomonc"
version = "0.1.0"
edition = "2021"
publish = false

[dependencies]
bincode = "0.9"
bytes = "0.4"
clap = "2"
error-chain = "0.11"
futures = "0.1"
getset = "*"
repomon = "*"
slog = "2"
slog-async = "2"
slog-term = "2"
slog-try = "*"
tokio-core = "0.1"
tokio-io = "0.1"
