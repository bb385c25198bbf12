[package]
name = "poll_count_bot"
version = "0.1.0"
edition = "2021"
publish = false

[dependencies]
frankenstein = "0.29"
log = "0.4"
regex = "1"
simple_logger = "*"
