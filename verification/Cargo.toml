[package]
name = "syslog_hv"
version = "0.1.0"
edition = "2021"
publish = false

[dependencies]
clap = { version = "4", features = ["derive"] }
ctrlc = "3"
rand = "0.8"
rand_word = "*"
