[package]
name = "puffin_test_app"
version = "0.1.0"
edition = "2021"
publish = false

[dependencies]
alloc-track = { version = "=0.4.0", default-features = false, features = ["backtrace"] }
chrono = "=0.4.45"
clap = { version = "=4.6.7", features = ["derive"] }
log = "=0.4.34"
puffin = "=0.20.0"
puffin_http = "=0.17.0"
rand = "=0.10.3"
simplelog = "=0.12.2"
