[package]
name = "jiman"
version = "0.1.0"
edition = "2021"
publish = false

[dependencies]
clap = { version = "=4.6.7", features = ["derive", "string"] }
clap_complete = "=4.6.11"
term_size = "=0.3.2"
