[package]
name = "x86_64_relax"
version = "0.1.0"
edition = "2021"
publish = false

[dependencies]
anyhow = "1"
object = { version = "0.36", default-features = false, features = ["elf"] }
