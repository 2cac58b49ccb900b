[package]
name = "r_top"
version = "0.1.0"
edition = "2021"
publish = false

[dependencies]
clap = "*"
ctrlc = "*"
dirs = "*"
libc = "*"
serde = { version = "*", features = ["derive"] }
sysinfo = "*"
toml = "*"
