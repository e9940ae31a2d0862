[package]
name = "hachimi"
version = "0.1.0"
edition = "2021"
publish = false

[dependencies]
widestring = "1"
serde = { version = "1", features = ["derive"] }
libc = "0.2"
log = "0.4"
simplelog = "0.12"
ctor = "0.2"
once_cell = "1"
