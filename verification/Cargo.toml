[package]
name = "logterm"
version = "0.1.0"
edition = "2021"
publish = false

[dependencies]
clap = "2"
failure = "0.1"
futures = "0.1"
regex = "1"
term-painter = "0.2"
time = "0.1"
