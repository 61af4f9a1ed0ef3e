[package]
name = "rcore_core"
version = "0.1.0"
edition = "2021"
publish = false

[dependencies]
riscv = "*"
sbi-rt = "*"
lazy_static = "*"
anyhow = "*"
clap = { version = "*", features = ["derive"] }
sha2 = "*"
walkdir = "*"
