[package]
name = "grammers_session"
version = "0.1.0"
edition = "2021"
publish = false

[dependencies]
grammers-tl-types = "=0.10.0"
snafu = "=0.9.2"
