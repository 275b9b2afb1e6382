[package]
name = "hunllef"
version = "0.1.0"
edition = "2021"
publish = false

[dependencies]
fastrand = "1"
clap = { version = "4", features = ["derive"] }
hdrhistogram = "7"
