[package]
name = "prisoners_dilemma"
version = "0.1.0"
edition = "2021"
publish = false

[dependencies]
rand = "0.8"
actix = "*"
log = "*"
env_logger = "*"
