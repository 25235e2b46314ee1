[package]
name = "terminal_groove"
version = "0.1.0"
edition = "2021"
publish = false

[dependencies]
anyhow = "1"
cpal = "0.17"
hound = "3.5"
rtrb = "0.3"
thiserror = "2"
