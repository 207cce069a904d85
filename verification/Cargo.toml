[package]
name = "pipeprog"
version = "0.1.0"
edition = "2021"
publish = false

[dependencies]
clap = "2.34"
crossbeam = "0.8"
crossterm = "0.27"
