[package]
name = "ffmpreg"
version = "0.1.0"
edition = "2021"
publish = false

[dependencies]
lewton = "0.10"
clap = { version = "4", features = ["derive"] }
glob = "0.3"
