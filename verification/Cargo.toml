[package]
name = "filetruck"
version = "0.1.0"
edition = "2021"
publish = false

[dependencies]
argh = "0.1"
atty = "0.2"
same-file = "1"
serde = { version = "1", features = ["derive"] }
serde_yaml = "0.8"
termcolor = "1"
