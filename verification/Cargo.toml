[package]
name = "gluon_repl"
version = "0.1.0"
edition = "2021"
publish = false

[dependencies]
gluon = "=0.18.4"
gluon_format = "=0.18.4"
clap = "=2.34.0"
env_logger = "=0.11.11"
